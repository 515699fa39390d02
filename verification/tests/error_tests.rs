use superchain_client::error::{Error, ResponseError};
use superchain_client::session::classify_error_payload;

#[test]
fn parses_structured_error_body() {
    let re = ResponseError::parse(br#"{"status":404,"error":"not found"}"#).expect("parses");
    assert_eq!(re.status, 404);
    assert_eq!(re.error, "not found");
}

#[test]
fn parses_members_in_either_order() {
    let re = ResponseError::parse(br#"{"error":"boom","status":500}"#).expect("parses");
    assert_eq!(re.status, 500);
    assert_eq!(re.error, "boom");
}

#[test]
fn parses_escapes_in_error_text() {
    let re = ResponseError::parse(br#"{"status":7,"error":"a\"b\\c"}"#).expect("parses");
    assert_eq!(re.status, 7);
    assert_eq!(re.error, "a\"b\\c");
}

#[test]
fn rejects_malformed_error_bodies() {
    assert!(ResponseError::parse(b"not json").is_none());
    assert!(ResponseError::parse(br#"{"status":404}"#).is_none());
    assert!(ResponseError::parse(br#"{"error":"x"}"#).is_none());
    assert!(ResponseError::parse(br#"{"status":70000,"error":"x"}"#).is_none());
    assert!(ResponseError::parse(br#"{"status":-1,"error":"x"}"#).is_none());
    assert!(ResponseError::parse(br#"{"status":404,"error":"x"} "#).is_none());
    assert!(ResponseError::parse(br#"{"status":404,"error":"unterminated}"#).is_none());
}

#[test]
fn screen_passes_ordinary_chunks_through() {
    let chunk = b"plain data".to_vec();
    assert_eq!(ResponseError::screen(chunk.clone()), Ok(chunk));

    // A brace-opened chunk that is not a structured error also passes.
    let not_error = br#"{"height":12}"#.to_vec();
    assert_eq!(ResponseError::screen(not_error.clone()), Ok(not_error));
}

#[test]
fn screen_surfaces_structured_errors() {
    let body = br#"{"status":404,"error":"not found"}"#.to_vec();
    match ResponseError::screen(body) {
        Err(Error::ErrorResponse(re)) => {
            assert_eq!(re.status, 404);
            assert_eq!(re.error, "not found");
        }
        other => panic!("expected a structured error, got {:?}", other),
    }
}

#[test]
fn classifies_error_payloads() {
    match classify_error_payload(br#"{"status":404,"error":"not found"}"#.to_vec()) {
        Err(Error::ErrorResponse(re)) => assert_eq!(re.status, 404),
        other => panic!("expected a structured error, got {:?}", other),
    }
    match classify_error_payload(b"backend on fire".to_vec()) {
        Err(Error::ErrorMsg(s)) => assert_eq!(s, "backend on fire"),
        other => panic!("expected a message, got {:?}", other),
    }
    // A brace-opened payload that does not parse is malformed.
    assert_eq!(
        classify_error_payload(b"{oops".to_vec()),
        Err(Error::UnexpectedMessageFormat)
    );
    // Invalid UTF-8 is malformed.
    assert_eq!(
        classify_error_payload(vec![0xff, 0xfe]),
        Err(Error::UnexpectedMessageFormat)
    );
}
