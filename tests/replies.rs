use libmagic_rs::cookie::{finish_call, OpenErrorKind};
use libmagic_rs::magic::{error_from_slot, CookieError, setflags_reply, status_reply, text_reply, Reply};

#[test]
fn slot_without_explanation_is_no_error() {
    assert!(error_from_slot(None, 0).is_none());
    assert!(error_from_slot(None, 2).is_none());
}

#[test]
fn slot_with_explanation_keeps_errno() {
    let err = error_from_slot(Some("cannot open `x'".to_string()), 2).unwrap();
    assert_eq!(err.explanation(), "cannot open `x'");
    assert_eq!(err.errno(), Some(2));
    let err = error_from_slot(Some("bad magic".to_string()), 0).unwrap();
    assert_eq!(err.explanation(), "bad magic");
    assert_eq!(err.errno(), None);
}

#[test]
fn status_replies() {
    assert!(matches!(status_reply(0, None), Reply::Done(())));
    let last = error_from_slot(Some("no database".to_string()), 0);
    match status_reply(-1, last) {
        Reply::Failed(err) => assert_eq!(err.explanation(), "no database"),
        _ => panic!("expected a failure"),
    }
    assert!(matches!(status_reply(-1, None), Reply::Broken));
    let last = error_from_slot(Some("stale".to_string()), 0);
    assert!(matches!(status_reply(7, last), Reply::Broken));
}

#[test]
fn text_replies() {
    match text_reply(Some("ASCII text".to_string()), None) {
        Reply::Done(text) => assert_eq!(text, "ASCII text"),
        _ => panic!("expected a description"),
    }
    let last = error_from_slot(Some("cannot read".to_string()), 5);
    match text_reply(None, last) {
        Reply::Failed(err) => assert_eq!(err.errno(), Some(5)),
        _ => panic!("expected a failure"),
    }
    assert!(matches!(text_reply(None, None), Reply::Broken));
}

#[test]
fn setflags_replies() {
    assert!(matches!(setflags_reply(0, None), Reply::Done(())));
    assert!(matches!(setflags_reply(3, None), Reply::Done(())));
    let last = error_from_slot(Some("unsupported".to_string()), 95);
    match setflags_reply(-1, last) {
        Reply::Failed(err) => assert_eq!(err.errno(), Some(95)),
        _ => panic!("expected a failure"),
    }
    assert!(matches!(setflags_reply(-1, None), Reply::Broken));
}

#[test]
fn finished_calls_carry_name_and_detail() {
    let ok: Result<String, CookieError> = Ok("data".to_string());
    assert_eq!(finish_call("magic_buffer", ok).unwrap(), "data");
    let failed: Result<(), CookieError> =
        Err(error_from_slot(Some("bad".to_string()), 2).unwrap());
    let err = finish_call("magic_check", failed).unwrap_err();
    assert_eq!(err.function(), "magic_check");
    assert_eq!(err.source().explanation(), "bad");
    assert_eq!(err.source().errno(), Some(2));
}

#[test]
fn open_error_kind_by_errno() {
    assert_eq!(OpenErrorKind::of_errno(22), OpenErrorKind::UnsupportedFlags);
    assert_eq!(OpenErrorKind::of_errno(12), OpenErrorKind::Errno);
    assert_eq!(OpenErrorKind::of_errno(2), OpenErrorKind::Errno);
}
