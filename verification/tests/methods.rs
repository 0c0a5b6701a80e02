use ccash_rs::methods::{
    add_user, add_user_request, change_password, change_password_request, contains_user,
    contains_user_request, delete_user, delete_user_request, get_balance, get_balance_request,
    get_log, get_log_request, get_log_v2, get_log_v2_request, send_funds, send_funds_request,
    verify_password, verify_password_request, ErrorPolicy,
};
use ccash_rs::request::{Method, Request};
use ccash_rs::{
    CCashError, CCashResponse, CCashSession, CCashSessionProperties, CCashUser, TransactionLog,
    TransactionLogV2,
};

fn connected() -> CCashSession {
    let mut session = CCashSession::new("http://localhost:8080/");
    session
        .establish_connection(Ok((
            reqwest::Client::new(),
            Ok(CCashSessionProperties::new(Some(2), 100, None, None)),
        )))
        .unwrap();
    session
}

fn success(message: &str) -> CCashResponse {
    CCashResponse::Success {
        code: 200,
        message: String::from(message),
    }
}

fn error(code: u16, message: &str) -> CCashResponse {
    CCashResponse::Error {
        code,
        message: String::from(message),
    }
}

fn rejected() -> serde_json::Error {
    serde_json::from_str::<u8>("").unwrap_err()
}

fn is_error_answer<T: std::fmt::Debug>(result: Result<T, CCashError>, code: u16, message: &str) {
    match result {
        Err(CCashError::ErrorResponse(CCashResponse::Error {
            code: c,
            message: m,
        })) => {
            assert_eq!(c, code);
            assert_eq!(m, message);
        }
        other => panic!("expected an error answer, got {:?}", other),
    }
}

fn is_request(
    request: &Request,
    method: Method,
    url: &str,
    auth: Option<&CCashUser>,
    body: Option<&str>,
) {
    assert_eq!(request.method, method);
    assert_eq!(request.url, url);
    assert_eq!(request.accept, "application/json");
    assert_eq!(request.content_type.as_deref(), Some("application/json"));
    assert_eq!(request.auth.as_ref(), auth);
    assert_eq!(request.body.as_deref(), body);
}

#[test]
fn user_requests_on_disconnected_session_are_refused() {
    let session = CCashSession::new("http://localhost:8080/");
    let user = CCashUser::new_unchecked("alice", "pw");
    let results = vec![
        get_balance_request(&session, &user),
        get_log_request(&session, &user),
        get_log_v2_request(&session, &user),
        contains_user_request(&session, &user),
        verify_password_request(&session, &user),
        change_password_request(&session, &user, "new"),
        send_funds_request(&session, &user, "bob", 1),
        add_user_request(&session, &user),
        delete_user_request(&session, &user),
    ];
    for result in results {
        assert!(matches!(result, Err(CCashError::ConnectionNotAvailable)));
    }
}

#[test]
fn balance_request() {
    let user = CCashUser::new_unchecked("alice", "pw");
    let request = get_balance_request(&connected(), &user).unwrap();
    is_request(
        &request,
        Method::Get,
        "http://localhost:8080/api/v1/user/balance?name=alice",
        Some(&user),
        None,
    );
}

#[test]
fn log_requests() {
    let user = CCashUser::new_unchecked("alice", "pw");
    let request = get_log_request(&connected(), &user).unwrap();
    is_request(
        &request,
        Method::Get,
        "http://localhost:8080/api/v1/user/log",
        Some(&user),
        None,
    );
    let request = get_log_v2_request(&connected(), &user).unwrap();
    is_request(
        &request,
        Method::Get,
        "http://localhost:8080/api/v2/user/log",
        Some(&user),
        None,
    );
}

#[test]
fn contains_user_request_names_the_user() {
    let user = CCashUser::new_unchecked("alice", "pw");
    let request = contains_user_request(&connected(), &user).unwrap();
    is_request(
        &request,
        Method::Get,
        "http://localhost:8080/api/v1/user/exists?name=alice",
        Some(&user),
        None,
    );
}

#[test]
fn verify_password_request_is_a_post() {
    let user = CCashUser::new_unchecked("alice", "pw");
    let request = verify_password_request(&connected(), &user).unwrap();
    is_request(
        &request,
        Method::Post,
        "http://localhost:8080/api/v1/user/verify_password",
        Some(&user),
        None,
    );
}

#[test]
fn change_password_request_carries_the_new_password() {
    let user = CCashUser::new_unchecked("alice", "pw");
    let request = change_password_request(&connected(), &user, "new pw").unwrap();
    is_request(
        &request,
        Method::Patch,
        "http://localhost:8080/api/v1/user/change_password",
        Some(&user),
        Some("{\"pass\":\"new pw\"}"),
    );
}

#[test]
fn send_funds_request_carries_name_and_amount() {
    let user = CCashUser::new_unchecked("alice", "pw");
    let request = send_funds_request(&connected(), &user, "bob", 25).unwrap();
    is_request(
        &request,
        Method::Post,
        "http://localhost:8080/api/v1/user/transfer",
        Some(&user),
        Some("{\"name\":\"bob\",\"amount\":25}"),
    );
}

#[test]
fn register_alice_with_spaces_in_password() {
    let user = CCashUser::new("alice", "secret pass").unwrap();
    assert_eq!(user.get_password(), "secretpass");
    let request = add_user_request(&connected(), &user).unwrap();
    is_request(
        &request,
        Method::Post,
        "http://localhost:8080/api/v1/user/register",
        None,
        Some("{\"name\":\"alice\",\"pass\":\"secretpass\"}"),
    );
}

#[test]
fn delete_user_request_is_a_delete() {
    let user = CCashUser::new_unchecked("alice", "pw");
    let request = delete_user_request(&connected(), &user).unwrap();
    is_request(
        &request,
        Method::Delete,
        "http://localhost:8080/api/v1/user/delete",
        Some(&user),
        None,
    );
}

#[test]
fn balance_of_body_42_is_42() {
    assert!(matches!(get_balance(success("42")), Ok(42)));
}

#[test]
fn balance_of_empty_body_is_the_default() {
    assert!(matches!(get_balance(success("")), Ok(0)));
    assert!(matches!(get_balance(success("null")), Ok(0)));
    assert!(matches!(get_balance(success("nonsense")), Ok(0)));
}

#[test]
fn balance_of_what_cannot_begin_a_number_is_the_default() {
    for code in 0u32..128 {
        let c = char::from_u32(code).unwrap();
        if c == ' ' || c == '\n' || c == '\t' || c == '\r' || c == 'n' || c.is_ascii_digit() {
            continue;
        }
        assert!(matches!(get_balance(success(&format!("{}1", c))), Ok(0)));
    }
}

#[test]
fn balance_reads_back_what_the_library_writes() {
    for n in [0u32, 1, 9, 10, 42, 99, 100, 65536, u32::MAX] {
        let text = ccash_rs::text::decimal_u64(u64::from(n));
        assert!(matches!(get_balance(success(&text)), Ok(m) if m == n));
    }
    assert!(matches!(get_balance(success("4294967296")), Ok(0)));
    assert!(matches!(get_balance(success("007")), Ok(0)));
}

#[test]
fn balance_of_error_answer_is_an_error() {
    is_error_answer(get_balance(error(401, "wrong password")), 401, "wrong password");
    is_error_answer(get_balance(error(404, "42")), 404, "42");
}

#[test]
fn send_funds_gives_the_new_balance() {
    assert!(matches!(send_funds(success("75")), Ok(75)));
    assert!(matches!(send_funds(success("")), Ok(0)));
    is_error_answer(send_funds(error(400, "not enough funds")), 400, "not enough funds");
}

#[test]
fn log_of_first_form() {
    let entries = vec![TransactionLog::new(
        String::from("bob"),
        String::from("alice"),
        25,
        7,
    )];
    let log = get_log(success("[..]"), Ok(Some(entries))).unwrap();
    assert_eq!(log.len(), 1);
    assert_eq!(log[0].get_to_account(), "bob");
    assert_eq!(log[0].get_from_account(), "alice");
    assert_eq!(log[0].get_amount(), 25);
    assert_eq!(log[0].get_time(), 7);
    assert!(get_log(success(""), Err(rejected())).unwrap().is_empty());
    assert!(get_log(success("null"), Ok(None)).unwrap().is_empty());
    is_error_answer(get_log(error(401, "no"), Err(rejected())), 401, "no");
    is_error_answer(get_log(error(401, "[]"), Ok(Some(Vec::new()))), 401, "[]");
}

#[test]
fn log_of_second_form() {
    let entries = vec![
        TransactionLogV2::new(String::from("bob"), true, 25, 7),
        TransactionLogV2::new(String::from("carol"), false, 5, 8),
    ];
    let log = get_log_v2(success("[..]"), Ok(Some(entries))).unwrap();
    assert_eq!(log.len(), 2);
    assert_eq!(log[0].get_counterparty(), "bob");
    assert!(log[0].get_if_receiving());
    assert_eq!(log[1].get_counterparty(), "carol");
    assert!(!log[1].get_if_receiving());
    assert_eq!(log[1].get_amount(), 5);
    assert_eq!(log[1].get_time(), 8);
    assert!(get_log_v2(success("null"), Ok(None)).unwrap().is_empty());
    assert!(get_log_v2(success("x"), Err(rejected())).unwrap().is_empty());
    is_error_answer(get_log_v2(error(500, "down"), Err(rejected())), 500, "down");
}

#[test]
fn success_is_true_under_both_policies() {
    for policy in [ErrorPolicy::StrictErrors, ErrorPolicy::TreatErrorsAsFalse] {
        assert!(matches!(contains_user(success(""), policy), Ok(true)));
        assert!(matches!(verify_password(success(""), policy), Ok(true)));
        assert!(matches!(add_user(success(""), policy), Ok(true)));
    }
}

#[test]
fn strict_policy_reads_401_as_false_for_verification() {
    let policy = ErrorPolicy::StrictErrors;
    assert!(matches!(contains_user(error(401, "no"), policy), Ok(false)));
    assert!(matches!(verify_password(error(401, "no"), policy), Ok(false)));
    is_error_answer(contains_user(error(409, "no"), policy), 409, "no");
    is_error_answer(verify_password(error(409, "no"), policy), 409, "no");
    is_error_answer(contains_user(error(404, "gone"), policy), 404, "gone");
    is_error_answer(verify_password(error(500, "down"), policy), 500, "down");
}

#[test]
fn strict_policy_reads_409_as_false_for_registration() {
    let policy = ErrorPolicy::StrictErrors;
    assert!(matches!(add_user(error(409, "taken"), policy), Ok(false)));
    is_error_answer(add_user(error(401, "no"), policy), 401, "no");
    is_error_answer(add_user(error(400, "bad"), policy), 400, "bad");
}

#[test]
fn lenient_policy_reads_every_error_as_false() {
    let policy = ErrorPolicy::TreatErrorsAsFalse;
    for code in [300u16, 400, 401, 404, 409, 500, 199] {
        assert!(matches!(contains_user(error(code, "x"), policy), Ok(false)));
        assert!(matches!(verify_password(error(code, "x"), policy), Ok(false)));
        assert!(matches!(add_user(error(code, "x"), policy), Ok(false)));
    }
}

#[test]
fn default_policy_is_strict() {
    assert_eq!(ErrorPolicy::default(), ErrorPolicy::StrictErrors);
    is_error_answer(
        contains_user(error(404, "gone"), ErrorPolicy::default()),
        404,
        "gone",
    );
}

#[test]
fn delete_user_succeeds_or_hands_on_the_error() {
    assert!(matches!(delete_user(success("")), Ok(())));
    is_error_answer(delete_user(error(401, "no")), 401, "no");
}

#[test]
fn successful_change_gives_the_user_the_new_password() {
    let mut user = CCashUser::new("alice", "old").unwrap();
    let result = change_password(
        &mut user,
        "new pass",
        success(""),
        ErrorPolicy::StrictErrors,
    );
    assert!(matches!(result, Ok(true)));
    assert_eq!(user.get_password(), "new pass");
    assert_eq!(user.get_username(), "alice");
}

#[test]
fn failed_change_leaves_the_user_unchanged() {
    let mut user = CCashUser::new("alice", "old").unwrap();
    let result = change_password(
        &mut user,
        "new",
        error(401, "no"),
        ErrorPolicy::StrictErrors,
    );
    is_error_answer(result, 401, "no");
    assert_eq!(user.get_password(), "old");
    let result = change_password(
        &mut user,
        "new",
        error(401, "no"),
        ErrorPolicy::TreatErrorsAsFalse,
    );
    assert!(matches!(result, Ok(false)));
    assert_eq!(user.get_password(), "old");
    assert_eq!(user.get_username(), "alice");
}
