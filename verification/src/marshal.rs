//! Conversion between the host's primitive values and native ones.
//!
//! The host passes the employee number as a 32-bit signed integer; the
//! backend takes an unsigned machine word. The bridge widens by
//! two's-complement reinterpretation at the machine's word width: negative
//! values are not rejected, they map to large unsigned values.

use vstd::prelude::*;

verus! {

/// The unsigned machine word a host 32-bit signed integer widens to:
/// two's-complement reinterpretation at the machine's word width.
pub open spec fn widened(n: i32) -> int {
    if n >= 0 {
        n as int
    } else {
        n + usize::MAX + 1
    }
}

/// Widen the host's 32-bit signed employee number to the unsigned machine
/// word the backend expects. Non-negative values are kept as they are;
/// negative values are reinterpreted in two's complement, so they come out as
/// very large unsigned values.
pub fn widen_number(n: i32) -> (r: usize)
    ensures
        r == widened(n),
{
    if n >= 0 {
        n as usize
    } else {
        let magnitude_less_one = (-((n as i64) + 1)) as usize;
        usize::MAX - magnitude_less_one
    }
}

} // verus!
