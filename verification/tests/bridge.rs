//! Tests of the bridge's per-call steps against the host model, of the
//! marshalling, and of the test backend.

use signin::backend::api_version;
use signin::bridge::deliver_signin;
use signin::bridge::lower_result;
use signin::bridge::prepare_signin;
use signin::bridge::version;
use signin::bridge::version_call;
use signin::bridge::MarshalError;
use signin::host::HostFrame;
use signin::marshal::widen_number;

#[test]
fn test_api_version() {
    let version = api_version();
    assert_eq!(version, "V1.0.0");
}

#[test]
fn version_is_the_hardcoded_literal() {
    assert_eq!(version(), "1.0.0");
}

#[test]
fn version_call_lowers_the_literal() {
    let mut frame = HostFrame::new();
    let h = version_call(&mut frame);
    assert_eq!(h, 0);
    assert_eq!(frame.get_string(h).unwrap(), "1.0.0");
}

#[test]
fn version_is_stable_across_calls_and_frames() {
    let mut frame = HostFrame::new();
    let first = version_call(&mut frame);
    let second = version_call(&mut frame);
    assert_eq!(frame.get_string(first).unwrap(), "1.0.0");
    assert_eq!(frame.get_string(second).unwrap(), "1.0.0");
    assert_eq!(frame.len(), 2);

    let mut other = HostFrame::new();
    other.new_string("unrelated".to_string());
    let h = version_call(&mut other);
    assert_eq!(other.get_string(h).unwrap(), "1.0.0");
}

#[test]
fn signin_empty_number_reports_backend_error() {
    let mut frame = HostFrame::new();
    let token = frame.new_string(String::new());
    let bmp_path = frame.new_string(String::new());

    let req = prepare_signin(&frame, 0, token, bmp_path).unwrap();
    assert_eq!(req.number, 0);
    assert_eq!(req.token, "");
    assert_eq!(req.bmp_path, "");

    // Backend stub: an empty employee number is rejected.
    let backend: Result<String, String> = Err("工号不能为空".to_string());
    let h = deliver_signin(&mut frame, backend);
    let reply = frame.get_string(h).unwrap();
    assert_eq!(reply.as_bytes(), "工号不能为空".as_bytes());
}

#[test]
fn signin_success_reports_confirmation() {
    let mut frame = HostFrame::new();
    let token = frame.new_string("tok".to_string());
    let bmp_path = frame.new_string("/tmp/x.bmp".to_string());

    let req = prepare_signin(&frame, 42, token, bmp_path).unwrap();
    assert_eq!(req.number, 42);
    assert_eq!(req.token, "tok");
    assert_eq!(req.bmp_path, "/tmp/x.bmp");

    let h = deliver_signin(&mut frame, Ok("ok".to_string()));
    assert_eq!(frame.get_string(h).unwrap(), "ok");
}

#[test]
fn signin_failure_reports_backend_message() {
    let mut frame = HostFrame::new();
    let token = frame.new_string("tok".to_string());
    let bmp_path = frame.new_string("/tmp/x.bmp".to_string());

    let req = prepare_signin(&frame, 42, token, bmp_path).unwrap();
    assert_eq!(req.number, 42);

    let h = deliver_signin(&mut frame, Err("network down".to_string()));
    assert_eq!(frame.get_string(h).unwrap(), "network down");
}

#[test]
fn marshal_round_trip_keeps_bytes() {
    let mut frame = HostFrame::new();
    let s = "工号 sign-in /tmp/图像.bmp";
    let h = frame.new_string(s.to_string());
    let lifted = frame.get_string(h).unwrap();
    assert_eq!(lifted, s);

    let h2 = frame.new_string(lifted);
    let lowered = frame.get_string(h2).unwrap();
    assert_eq!(lowered.as_bytes(), s.as_bytes());
}

#[test]
fn unknown_token_handle_fails_marshalling() {
    let frame = HostFrame::new();
    let r = prepare_signin(&frame, 7, 0, 1);
    assert_eq!(r.unwrap_err(), MarshalError::HostStringAccessFailed);
}

#[test]
fn unknown_bmp_path_handle_fails_marshalling() {
    let mut frame = HostFrame::new();
    let token = frame.new_string("tok".to_string());
    let r = prepare_signin(&frame, 7, token, 5);
    assert!(matches!(r, Err(MarshalError::HostStringAccessFailed)));
}

#[test]
fn lower_result_collapses_success_and_failure() {
    assert_eq!(lower_result(Ok("ok".to_string())), "ok");
    assert_eq!(lower_result(Err("network down".to_string())), "network down");
}

#[test]
fn widen_keeps_non_negative_numbers() {
    assert_eq!(widen_number(0), 0);
    assert_eq!(widen_number(42), 42);
    assert_eq!(widen_number(i32::MAX), i32::MAX as usize);
}

#[test]
fn widen_reinterprets_negative_numbers() {
    assert_eq!(widen_number(-1), -1i32 as usize);
    assert_eq!(widen_number(-1), usize::MAX);
    assert_eq!(widen_number(i32::MIN), i32::MIN as usize);
}
