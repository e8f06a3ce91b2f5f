//! Model of the host runtime's local-reference frame.
//!
//! A host string handle is an opaque reference into the host's managed heap,
//! valid only for the bridge call that received or produced it. The bridge
//! performs exactly two operations on such handles: it lifts a host string to
//! an owned native string, and it lowers a native string to a fresh host
//! string. Here the frame is the sequence of host strings a call has touched,
//! and a handle is the index of a string in that frame.

use vstd::prelude::*;

verus! {

/// The host strings of one bridge call, addressed by handle.
pub struct HostFrame {
    strings: Vec<String>,
}

/// The frame that results from lowering the native string `s` into the frame
/// `f`: the host takes ownership of one fresh host string holding `s`.
pub open spec fn lowered_frame(f: Seq<Seq<char>>, s: Seq<char>) -> Seq<Seq<char>> {
    f.push(s)
}

/// The handle of the host string produced by lowering a native string into
/// the frame `f`.
pub open spec fn lowered_handle(f: Seq<Seq<char>>) -> int {
    f.len() as int
}

/// The native string obtained by lifting the handle `h` out of the frame `f`:
/// the characters of the host string behind `h`, or nothing when the host
/// does not know the handle.
pub open spec fn lifted(f: Seq<Seq<char>>, h: int) -> Option<Seq<char>> {
    if 0 <= h < f.len() {
        Some(f[h])
    } else {
        None
    }
}

impl View for HostFrame {
    type V = Seq<Seq<char>>;

    closed spec fn view(&self) -> Seq<Seq<char>> {
        self.strings@.map_values(|s: String| s@)
    }
}

impl HostFrame {
    /// A fresh frame holding no host strings, as the host provides at the
    /// start of a call.
    pub fn new() -> (f: HostFrame)
        ensures
            f@ == Seq::<Seq<char>>::empty(),
    {
        HostFrame { strings: Vec::new() }
    }

    /// How many host strings the frame holds.
    pub fn len(&self) -> (n: usize)
        ensures
            n == self@.len(),
    {
        self.strings.len()
    }

    /// Lower a native string: the host creates a fresh host string holding
    /// `s` and hands back its handle.
    pub fn new_string(&mut self, s: String) -> (h: usize)
        ensures
            final(self)@ == lowered_frame(old(self)@, s@),
            h == lowered_handle(old(self)@),
    {
        let h = self.strings.len();
        self.strings.push(s);
        h
    }

    /// Lift the host string behind the handle `h` to an owned native string;
    /// nothing when the host does not know the handle.
    pub fn get_string(&self, h: usize) -> (r: Option<String>)
        ensures
            match r {
                Some(s) => lifted(self@, h as int) == Some(s@),
                None => lifted(self@, h as int) is None,
            },
    {
        if h < self.strings.len() {
            Some(self.strings[h].clone())
        } else {
            None
        }
    }
}

/// Marshalling identity: for any host string free of embedded nul characters,
/// lifting it to a native string and lowering that native string back into
/// the frame yields a host string with exactly the same characters.
pub proof fn lemma_marshal_identity(f: Seq<Seq<char>>, h: int, s: Seq<char>)
    requires
        lifted(f, h) == Some(s),
        forall|i: int| 0 <= i < s.len() ==> s[i] != '\0',
    ensures
        lifted(lowered_frame(f, s), lowered_handle(f)) == Some(s),
{
}

/// No handle leak: lowering a native string only appends to the frame, so
/// every handle that was valid before still lifts to the same string
/// afterwards, and the one new handle was not valid before.
pub proof fn lemma_no_handle_leak(f: Seq<Seq<char>>, s: Seq<char>, h: int)
    requires
        lifted(f, h) is Some,
    ensures
        lifted(lowered_frame(f, s), h) == lifted(f, h),
        h != lowered_handle(f),
{
}

} // verus!
