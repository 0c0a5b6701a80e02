use ccash_rs::methods::admin::{
    add_user, add_user_request, change_password, change_password_request, close, close_request,
    delete_user, delete_user_request, impact_balance, impact_balance_request, prune_users,
    prune_users_request, pruned_count, set_balance, set_balance_request, verify_account,
    verify_account_request,
};
use ccash_rs::methods::ErrorPolicy;
use ccash_rs::request::{Method, Request};
use ccash_rs::{CCashError, CCashResponse, CCashSession, CCashSessionProperties, CCashUser};

fn connected() -> CCashSession {
    let mut session = CCashSession::new("http://localhost:8080/");
    session
        .establish_connection(Ok((
            reqwest::Client::new(),
            Ok(CCashSessionProperties::new(Some(2), 100, None, None)),
        )))
        .unwrap();
    session
}

fn admin() -> CCashUser {
    CCashUser::new_unchecked("admin", "root")
}

fn success(message: &str) -> CCashResponse {
    CCashResponse::Success {
        code: 200,
        message: String::from(message),
    }
}

fn error(code: u16, message: &str) -> CCashResponse {
    CCashResponse::Error {
        code,
        message: String::from(message),
    }
}

fn is_error_answer<T: std::fmt::Debug>(result: Result<T, CCashError>, code: u16, message: &str) {
    match result {
        Err(CCashError::ErrorResponse(CCashResponse::Error {
            code: c,
            message: m,
        })) => {
            assert_eq!(c, code);
            assert_eq!(m, message);
        }
        other => panic!("expected an error answer, got {:?}", other),
    }
}

fn is_admin_request(request: &Request, method: Method, url: &str, body: Option<&str>) {
    assert_eq!(request.method, method);
    assert_eq!(request.url, url);
    assert_eq!(request.accept, "application/json");
    assert_eq!(request.content_type.as_deref(), Some("application/json"));
    assert_eq!(request.auth, Some(admin()));
    assert_eq!(request.body.as_deref(), body);
}

#[test]
fn admin_requests_on_disconnected_session_are_refused() {
    let session = CCashSession::new("http://localhost:8080/");
    let user = CCashUser::new_unchecked("alice", "pw");
    let results = vec![
        verify_account_request(&session, &admin()),
        change_password_request(&session, &admin(), &user, "new"),
        set_balance_request(&session, &admin(), "alice", 1),
        impact_balance_request(&session, &admin(), "alice", -1),
        add_user_request(&session, &admin(), &user, 1),
        delete_user_request(&session, &admin(), "alice"),
        prune_users_request(&session, &admin(), 1, None),
        close_request(&session, &admin()),
    ];
    for result in results {
        assert!(matches!(result, Err(CCashError::ConnectionNotAvailable)));
    }
}

#[test]
fn verify_account_request_is_a_post() {
    let request = verify_account_request(&connected(), &admin()).unwrap();
    is_admin_request(
        &request,
        Method::Post,
        "http://localhost:8080/api/v1/admin/verify_account",
        None,
    );
}

#[test]
fn admin_change_password_request_names_the_user() {
    let user = CCashUser::new_unchecked("alice", "old");
    let request = change_password_request(&connected(), &admin(), &user, "new pw").unwrap();
    is_admin_request(
        &request,
        Method::Patch,
        "http://localhost:8080/api/v1/admin/user/change_password",
        Some("{\"name\":\"alice\",\"pass\":\"new pw\"}"),
    );
}

#[test]
fn set_balance_request_carries_name_and_amount() {
    let request = set_balance_request(&connected(), &admin(), "bob", 4294967295).unwrap();
    is_admin_request(
        &request,
        Method::Patch,
        "http://localhost:8080/api/v1/admin/set_balance",
        Some("{\"name\":\"bob\",\"amount\":4294967295}"),
    );
}

#[test]
fn impact_balance_request_carries_a_signed_amount() {
    let request = impact_balance_request(&connected(), &admin(), "bob", -250).unwrap();
    is_admin_request(
        &request,
        Method::Post,
        "http://localhost:8080/api/v1/admin/impact_balance",
        Some("{\"name\":\"bob\",\"amount\":-250}"),
    );
    let request = impact_balance_request(&connected(), &admin(), "bob", i64::MIN).unwrap();
    assert_eq!(
        request.body.as_deref(),
        Some("{\"name\":\"bob\",\"amount\":-9223372036854775808}")
    );
}

#[test]
fn admin_add_user_request_carries_name_password_and_amount() {
    let user = CCashUser::new("Carol", "p w").unwrap();
    let request = add_user_request(&connected(), &admin(), &user, 7).unwrap();
    is_admin_request(
        &request,
        Method::Post,
        "http://localhost:8080/api/v1/admin/user/register",
        Some("{\"name\":\"carol\",\"pass\":\"pw\",\"amount\":7}"),
    );
}

#[test]
fn admin_delete_user_request_names_the_user() {
    let request = delete_user_request(&connected(), &admin(), "bob").unwrap();
    is_admin_request(
        &request,
        Method::Delete,
        "http://localhost:8080/api/v1/admin/user/delete",
        Some("{\"name\":\"bob\"}"),
    );
}

#[test]
fn prune_users_request_with_and_without_time() {
    let request = prune_users_request(&connected(), &admin(), 5, None).unwrap();
    is_admin_request(
        &request,
        Method::Post,
        "http://localhost:8080/api/v1/admin/prune_users",
        Some("{\"amount\":5,\"time\":null}"),
    );
    let request = prune_users_request(&connected(), &admin(), 5, Some(1431648000)).unwrap();
    assert_eq!(
        request.body.as_deref(),
        Some("{\"amount\":5,\"time\":1431648000}")
    );
}

#[test]
fn close_request_is_a_post() {
    let request = close_request(&connected(), &admin()).unwrap();
    is_admin_request(
        &request,
        Method::Post,
        "http://localhost:8080/api/v1/admin/shutdown",
        None,
    );
}

#[test]
fn verify_account_reads_401_as_false() {
    assert!(matches!(
        verify_account(success(""), ErrorPolicy::StrictErrors),
        Ok(true)
    ));
    assert!(matches!(
        verify_account(error(401, "no"), ErrorPolicy::StrictErrors),
        Ok(false)
    ));
    is_error_answer(
        verify_account(error(409, "no"), ErrorPolicy::StrictErrors),
        409,
        "no",
    );
    assert!(matches!(
        verify_account(error(409, "no"), ErrorPolicy::TreatErrorsAsFalse),
        Ok(false)
    ));
}

#[test]
fn admin_add_user_reads_409_as_false() {
    assert!(matches!(
        add_user(success(""), ErrorPolicy::StrictErrors),
        Ok(true)
    ));
    assert!(matches!(
        add_user(error(409, "taken"), ErrorPolicy::StrictErrors),
        Ok(false)
    ));
    is_error_answer(
        add_user(error(401, "no"), ErrorPolicy::StrictErrors),
        401,
        "no",
    );
    assert!(matches!(
        add_user(error(500, "down"), ErrorPolicy::TreatErrorsAsFalse),
        Ok(false)
    ));
}

#[test]
fn set_balance_for_unknown_user_is_a_server_error() {
    is_error_answer(
        set_balance(error(404, "User not found")),
        404,
        "User not found",
    );
    assert!(matches!(set_balance(success("")), Ok(())));
}

#[test]
fn impact_balance_succeeds_or_hands_on_the_error() {
    assert!(matches!(impact_balance(success("")), Ok(())));
    is_error_answer(impact_balance(error(400, "bad")), 400, "bad");
}

#[test]
fn admin_delete_user_succeeds_or_hands_on_the_error() {
    assert!(matches!(delete_user(success("")), Ok(())));
    is_error_answer(delete_user(error(404, "gone")), 404, "gone");
}

fn is_library_error<T: std::fmt::Debug>(result: Result<T, CCashError>) {
    match result {
        Err(CCashError::Error(text)) => assert_eq!(
            text,
            "Could not parse amount of users pruned into a valid u64"
        ),
        other => panic!("expected an error of the library, got {:?}", other),
    }
}

#[test]
fn prune_users_gives_the_count() {
    assert!(matches!(prune_users(success("3")), Ok(3)));
    assert!(matches!(prune_users(success("0")), Ok(0)));
    assert!(matches!(prune_users(success(" 3 ")), Ok(3)));
    assert!(matches!(prune_users(success("4294967296")), Ok(4294967296)));
    assert!(matches!(
        prune_users(success("18446744073709551615")),
        Ok(u64::MAX)
    ));
}

#[test]
fn prune_users_reads_null_as_zero() {
    assert!(matches!(prune_users(success("null")), Ok(0)));
}

#[test]
fn prune_users_with_unparseable_count_is_an_error_of_the_library() {
    for body in [
        "", "abc", "many", "-1", "\"3\"", "3.0", "3 x", "[3]", "{}", "18446744073709551616",
    ] {
        is_library_error(prune_users(success(body)));
    }
}

#[test]
fn prune_users_rejects_what_cannot_begin_a_count() {
    for code in 0u32..128 {
        let c = char::from_u32(code).unwrap();
        if c == ' ' || c == '\n' || c == '\t' || c == '\r' || c == 'n' || c.is_ascii_digit() {
            continue;
        }
        is_library_error(prune_users(success(&format!("{}", c))));
        is_library_error(prune_users(success(&format!("{}1", c))));
        is_library_error(prune_users(success(&format!("{}ull", c))));
    }
    for text in ["\u{e9}", "\u{a0}1", "\u{ff11}", "\u{1f49d}"] {
        is_library_error(prune_users(success(text)));
    }
}

#[test]
fn prune_users_reads_back_what_the_library_writes() {
    for n in [0u64, 1, 9, 10, 99, 100, 4294967295, 4294967296, u64::MAX] {
        let text = ccash_rs::text::decimal_u64(n);
        assert!(matches!(prune_users(success(&text)), Ok(m) if m == n));
    }
}

#[test]
fn prune_users_hands_on_an_error_answer() {
    is_error_answer(prune_users(error(401, "no")), 401, "no");
    is_error_answer(prune_users(error(404, "3")), 404, "3");
    is_error_answer(prune_users(error(500, "abc")), 500, "abc");
}

#[test]
fn pruned_count_of_each_reading() {
    assert!(matches!(pruned_count(Ok(Some(3))), Ok(3)));
    assert!(matches!(pruned_count(Ok(None)), Ok(0)));
    is_library_error(pruned_count(Err(
        serde_json::from_str::<u64>("abc").unwrap_err()
    )));
}

#[test]
fn successful_admin_change_gives_the_user_the_new_password() {
    let mut user = CCashUser::new("alice", "old").unwrap();
    let result = change_password(
        &mut user,
        " new pass ",
        success(""),
        ErrorPolicy::StrictErrors,
    );
    assert!(matches!(result, Ok(true)));
    assert_eq!(user.get_password(), " new pass ");
    assert_eq!(user.get_username(), "alice");
}

#[test]
fn failed_admin_change_leaves_the_user_unchanged() {
    let mut user = CCashUser::new("alice", "old").unwrap();
    let result = change_password(
        &mut user,
        "new",
        error(404, "gone"),
        ErrorPolicy::StrictErrors,
    );
    is_error_answer(result, 404, "gone");
    assert_eq!(user.get_password(), "old");
    let result = change_password(
        &mut user,
        "new",
        error(404, "gone"),
        ErrorPolicy::TreatErrorsAsFalse,
    );
    assert!(matches!(result, Ok(false)));
    assert_eq!(user.get_password(), "old");
}

#[test]
fn successful_close_disconnects_the_session() {
    let mut session = connected();
    assert!(matches!(close(&mut session, success("")), Ok(())));
    assert!(!session.is_connected());
    assert!(session.get_client().is_none());
    assert!(session.get_properties().is_none());
    assert_eq!(session.get_session_url(), "http://localhost:8080/api");
    assert!(session.properties_request().is_some());
    assert!(matches!(
        close_request(&session, &admin()),
        Err(CCashError::ConnectionNotAvailable)
    ));
}

#[test]
fn failed_close_leaves_the_session_connected() {
    let mut session = connected();
    is_error_answer(close(&mut session, error(401, "no")), 401, "no");
    assert!(session.is_connected());
    assert!(session.get_client().is_some());
    assert_eq!(
        session.get_properties().as_ref().unwrap().get_max_log(),
        100
    );
}
