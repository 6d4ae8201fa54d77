use error_front::front::status_error;
use error_front::{
    ApplicationError, ApplicationErrorKind, BaseResp, Response, MESSAGE_ON_OTHER,
    MESSAGE_ON_SENTINEL,
};
use std::collections::HashMap;

#[test]
fn new_application_error_copies_kind_and_message() {
    let e = ApplicationError::new(ApplicationErrorKind::MissingResult, "no result");
    assert_eq!(e.kind, ApplicationErrorKind::MissingResult);
    assert_eq!(e.message, "no result");
    let e = ApplicationError::new(ApplicationErrorKind::Unknown, "");
    assert_eq!(e, ApplicationError { kind: ApplicationErrorKind::Unknown, message: String::new() });
}

#[test]
fn status_error_for_the_sentinel() {
    let e = status_error(12345678);
    assert_eq!(e.kind, ApplicationErrorKind::UnknownMethod);
    assert_eq!(e.message, "Good Morning");
}

#[test]
fn status_error_for_other_codes() {
    for code in [0i64, 1, -1, 7, 12345677, 12345679, i64::MIN, i64::MAX] {
        let e = status_error(code);
        assert_eq!(e.kind, ApplicationErrorKind::UnknownMethod);
        assert_eq!(e.message, "Good Evening");
    }
}

#[test]
fn messages_are_the_fixed_strings() {
    assert_eq!(MESSAGE_ON_SENTINEL, "Good Morning");
    assert_eq!(MESSAGE_ON_OTHER, "Good Evening");
}

#[test]
fn status_code_reads_through_the_descriptor() {
    let absent: Response<()> = Response { body: (), base_resp: None };
    assert_eq!(absent.status_code(), None);
    let unset: Response<()> = Response {
        body: (),
        base_resp: Some(BaseResp {
            status_message: "m".to_string(),
            status_code: None,
            extra: HashMap::new(),
        }),
    };
    assert_eq!(unset.status_code(), None);
    let set: Response<()> = Response {
        body: (),
        base_resp: Some(BaseResp {
            status_message: "m".to_string(),
            status_code: Some(-40),
            extra: HashMap::new(),
        }),
    };
    assert_eq!(set.status_code(), Some(-40));
}

#[test]
fn status_code_zero_is_present() {
    let zero: Response<u8> = Response {
        body: 0,
        base_resp: Some(BaseResp {
            status_message: String::new(),
            status_code: Some(0),
            extra: HashMap::new(),
        }),
    };
    assert_eq!(zero.status_code(), Some(0));
}
