//! The per-call steps of the two exported entry points.
//!
//! Each entry point runs on the host thread that invoked it, holds no state
//! between calls, and follows a fixed order: lift every host argument, call
//! the backend once, lower the result, return. The functions here are those
//! steps; the exported symbols compose them around the host environment and
//! the backend call.

use vstd::prelude::*;

use crate::host::HostFrame;
use crate::host::lifted;
use crate::host::lowered_frame;
use crate::host::lowered_handle;
use crate::marshal::widen_number;
use crate::marshal::widened;

verus! {

/// Why marshalling between host and native strings failed. Every such
/// failure is fatal to the bridge call it happened in: the entry points do
/// not retry, and hand the host no partial result.
#[derive(Clone, Copy, Debug, PartialEq, Eq, Structural)]
pub enum MarshalError {
    /// The host could not read the string behind a handle the bridge was
    /// given.
    HostStringAccessFailed,
    /// The host could not create a host string for a native result.
    HostStringCreateFailed,
}

/// The native arguments of one backend sign-in call, lifted and widened from
/// the host's values.
#[derive(Debug)]
pub struct SigninRequest {
    /// Employee number, widened from the host's 32-bit signed integer.
    pub number: usize,
    /// Authentication token; may be empty, the backend decides.
    pub token: String,
    /// Filesystem path of the sign-in image.
    pub bmp_path: String,
}

/// The string a backend sign-in result carries. Success and failure both
/// carry a human-readable string, and both are lowered to a host string the
/// same way, so the success flag is dropped at this point: the host must
/// inspect the string itself.
pub open spec fn collapsed(r: Result<String, String>) -> Seq<char> {
    match r {
        Ok(s) => s@,
        Err(e) => e@,
    }
}

/// The version string the bridge reports to the host: always the literal
/// `"1.0.0"`, whatever the backend would report for itself.
pub fn version() -> (r: String)
    ensures
        r@ == "1.0.0"@,
{
    "1.0.0".to_owned()
}

/// The `version` entry point against the host model: lower the literal
/// `"1.0.0"` into the frame and return its handle. The one host string the
/// call creates is the one whose handle it returns, so nothing is retained.
pub fn version_call(frame: &mut HostFrame) -> (h: usize)
    ensures
        final(frame)@ == lowered_frame(old(frame)@, "1.0.0"@),
        h == lowered_handle(old(frame)@),
{
    frame.new_string(version())
}

/// Lift the arguments of a sign-in call, in the order the entry point must
/// follow: the token first, then the image path, both before the backend may
/// be called; the employee number is widened alongside. Fails exactly when
/// the host does not know one of the two handles.
pub fn prepare_signin(frame: &HostFrame, number: i32, token: usize, bmp_path: usize) -> (r:
    Result<SigninRequest, MarshalError>)
    ensures
        match r {
            Ok(req) => {
                &&& lifted(frame@, token as int) == Some(req.token@)
                &&& lifted(frame@, bmp_path as int) == Some(req.bmp_path@)
                &&& req.number == widened(number)
            },
            Err(e) => {
                &&& e == MarshalError::HostStringAccessFailed
                &&& lifted(frame@, token as int) is None || lifted(
                    frame@,
                    bmp_path as int,
                ) is None
            },
        },
{
    let token_s = match frame.get_string(token) {
        Some(s) => s,
        None => {
            return Err(MarshalError::HostStringAccessFailed);
        },
    };
    let bmp_path_s = match frame.get_string(bmp_path) {
        Some(s) => s,
        None => {
            return Err(MarshalError::HostStringAccessFailed);
        },
    };
    Ok(SigninRequest { number: widen_number(number), token: token_s, bmp_path: bmp_path_s })
}

/// The native string the host receives out of a backend sign-in result: the
/// carried string, whether the backend succeeded or failed.
pub fn lower_result(result: Result<String, String>) -> (s: String)
    ensures
        s@ == collapsed(result),
{
    match result {
        Ok(s) => s,
        Err(e) => e,
    }
}

/// The tail of the `signin` entry point against the host model: lower the
/// string the backend result carries — success and failure alike — into the
/// frame and return its handle. The one host string the step creates is the
/// one whose handle it returns, so nothing is retained.
pub fn deliver_signin(frame: &mut HostFrame, result: Result<String, String>) -> (h: usize)
    ensures
        final(frame)@ == lowered_frame(old(frame)@, collapsed(result)),
        h == lowered_handle(old(frame)@),
{
    let s = lower_result(result);
    frame.new_string(s)
}

} // verus!
