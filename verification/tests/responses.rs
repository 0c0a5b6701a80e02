use ccash_rs::{CCashError, CCashResponse};

fn transport_error() -> reqwest::Error {
    reqwest::Client::new()
        .get("not an address")
        .build()
        .unwrap_err()
}

fn success(message: &str) -> CCashResponse {
    CCashResponse::Success {
        code: 200,
        message: String::from(message),
    }
}

fn error(code: u16, message: &str) -> CCashResponse {
    CCashResponse::Error {
        code,
        message: String::from(message),
    }
}

#[test]
fn codes_from_200_to_299_are_successes() {
    for code in [200u16, 201, 204, 250, 299] {
        assert!(matches!(
            CCashResponse::from_response(code, Ok(String::from("body"))),
            CCashResponse::Success { code: c, ref message } if c == code && message == "body"
        ));
    }
}

#[test]
fn other_codes_are_errors() {
    for code in [0u16, 100, 199, 300, 301, 400, 401, 404, 409, 500, 999, u16::MAX] {
        assert!(matches!(
            CCashResponse::from_response(code, Ok(String::from("body"))),
            CCashResponse::Error { code: c, ref message } if c == code && message == "body"
        ));
    }
}

#[test]
fn unreadable_body_counts_as_empty() {
    assert!(matches!(
        CCashResponse::from_response(200, Err(transport_error())),
        CCashResponse::Success { code: 200, ref message } if message.is_empty()
    ));
    assert!(matches!(
        CCashResponse::from_response(404, Err(transport_error())),
        CCashResponse::Error { code: 404, ref message } if message.is_empty()
    ));
}

fn rejected() -> serde_json::Error {
    serde_json::from_str::<u8>("").unwrap_err()
}

#[test]
fn convert_message_gives_the_value_read() {
    assert_eq!(success("x").convert_message(Ok(Some(5u8)), 0), Ok(5));
    assert_eq!(
        success("x").convert_message(Ok(Some(vec![1, 2])), Vec::new()),
        Ok(vec![1, 2])
    );
}

#[test]
fn convert_message_gives_the_default_where_nothing_was_read() {
    assert_eq!(success("null").convert_message(Ok(None), 9u8), Ok(9));
    assert_eq!(success("").convert_message(Err(rejected()), 9u8), Ok(9));
    assert_eq!(
        success("x").convert_message(Err(rejected()), String::from("d")),
        Ok(String::from("d"))
    );
}

#[test]
fn convert_message_refuses_an_error() {
    assert_eq!(error(404, "42").convert_message(Ok(Some(5u8)), 0), Err(()));
    assert_eq!(error(404, "null").convert_message(Ok(None), 0u8), Err(()));
    assert_eq!(error(404, "").convert_message(Err(rejected()), 0u8), Err(()));
    assert_eq!(error(404, "42").convert_message_u32(), Err(()));
    assert_eq!(error(500, "").convert_message_u32(), Err(()));
}

#[test]
fn convert_message_reads_numbers() {
    assert_eq!(success("42").convert_message_u32(), Ok(42));
    assert_eq!(success("0").convert_message_u32(), Ok(0));
    assert_eq!(success(" 42 ").convert_message_u32(), Ok(42));
    assert_eq!(success("4294967295").convert_message_u32(), Ok(u32::MAX));
}

#[test]
fn convert_message_gives_zero_for_what_is_no_number() {
    for body in [
        "", "null", "nonsense", "-1", "\"42\"", "{}", "[1]", "42 x", "42.0", "4e1",
    ] {
        assert_eq!(success(body).convert_message_u32(), Ok(0));
    }
    assert_eq!(success("4294967296").convert_message_u32(), Ok(0));
}

#[test]
fn error_answer_becomes_an_error() {
    match CCashError::from(error(404, "no such user")) {
        CCashError::ErrorResponse(CCashResponse::Error { code, message }) => {
            assert_eq!(code, 404);
            assert_eq!(message, "no such user");
        }
        other => panic!("expected an error answer, got {:?}", other),
    }
}

#[test]
fn transport_error_becomes_an_error() {
    let failure = transport_error();
    let text = failure.to_string();
    match CCashError::from(failure) {
        CCashError::ReqwestError(inner) => assert_eq!(inner.to_string(), text),
        other => panic!("expected a transport error, got {:?}", other),
    }
}
