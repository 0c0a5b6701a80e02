//! The endpoints of `CCash` that any user may call. Each endpoint has two
//! functions here: one makes the request that is to be sent, and the one
//! that bears the endpoint's name reads the answer that was received for it.
//! The endpoints that only an admin may call are in `admin`.

pub mod admin;

use crate::json::{
    name_amount_body, name_pass_body, pass_body, u32_in, value_read, write_name_amount_body,
    write_name_pass_body, write_pass_body,
};
use crate::log::{TransactionLog, TransactionLogV2};
use crate::request::{dispatched, is_dispatch, request, Method, Request};
use crate::responses::{CCashError, CCashResponse};
use crate::session::CCashSession;
use crate::user::{CCashUser, Credentials};
use vstd::prelude::*;
use vstd::string::StringExecFns;

verus! {

/// How an endpoint that answers yes or no reads the error answers of the
/// instance.
#[derive(Clone, Copy, Debug, PartialEq, Eq, Structural)]
pub enum ErrorPolicy {
    /// Only the status code that stands for "no" at that endpoint is read
    /// as `false`; every other error answer is an error.
    StrictErrors,
    /// Every error answer is read as `false`.
    TreatErrorsAsFalse,
}

impl Default for ErrorPolicy {
    /// The strict policy.
    fn default() -> (r: ErrorPolicy)
        ensures
            r == ErrorPolicy::StrictErrors,
    {
        ErrorPolicy::StrictErrors
    }
}

/// The result of an endpoint that answers yes or no: a success is `true`;
/// an error answer is `false` where its status code is `refusal` or where
/// the policy reads every error as `false`, and is handed on as an error
/// otherwise.
pub open spec fn yes_or_no(response: CCashResponse, refusal: u16, policy: ErrorPolicy) -> Result<
    bool,
    CCashError,
> {
    match response {
        CCashResponse::Success { .. } => Ok(true),
        CCashResponse::Error { code, .. } => if policy == ErrorPolicy::TreatErrorsAsFalse || code
            == refusal {
            Ok(false)
        } else {
            Err(CCashError::ErrorResponse(response))
        },
    }
}

/// The result of an endpoint that changes a password: a success is `true`;
/// an error answer is `false` where the policy reads every error as `false`,
/// and is handed on as an error otherwise.
pub open spec fn changed_or_not(response: CCashResponse, policy: ErrorPolicy) -> Result<
    bool,
    CCashError,
> {
    match response {
        CCashResponse::Success { .. } => Ok(true),
        CCashResponse::Error { .. } => if policy == ErrorPolicy::TreatErrorsAsFalse {
            Ok(false)
        } else {
            Err(CCashError::ErrorResponse(response))
        },
    }
}

/// The result of an endpoint that returns a value: the value that
/// `convert_message` takes out of a success, or the error answer as an
/// error.
pub open spec fn value_or_error<T>(response: CCashResponse, value: Option<T>, default: T) -> Result<
    T,
    CCashError,
> {
    match response.converted(value, default) {
        Ok(value) => Ok(value),
        Err(_) => Err(CCashError::ErrorResponse(response)),
    }
}

/// The result of an endpoint that returns nothing: a success, or the error
/// answer as an error.
pub open spec fn done_or_error(response: CCashResponse) -> Result<(), CCashError> {
    match response {
        CCashResponse::Success { .. } => Ok(()),
        CCashResponse::Error { .. } => Err(CCashError::ErrorResponse(response)),
    }
}

/// The user after an endpoint that changes a password has answered: the
/// password is `new_password` as it was given after a success, and the user
/// is as before after any other answer.
pub open spec fn user_after_change(
    user: Credentials,
    new_password: Seq<char>,
    response: CCashResponse,
) -> Credentials {
    if response is Success {
        Credentials { username: user.username, password: new_password }
    } else {
        user
    }
}

/// Reads the answer of an endpoint that answers yes or no.
pub(crate) fn read_yes_or_no(response: CCashResponse, refusal: u16, policy: ErrorPolicy) -> (r:
    Result<bool, CCashError>)
    ensures
        r == yes_or_no(response, refusal, policy),
{
    match response {
        CCashResponse::Success { .. } => Ok(true),
        CCashResponse::Error { code, .. } => {
            if policy == ErrorPolicy::TreatErrorsAsFalse || code == refusal {
                Ok(false)
            } else {
                Err(CCashError::ErrorResponse(response))
            }
        },
    }
}

/// Reads the answer of an endpoint that returns nothing.
pub(crate) fn read_done(response: CCashResponse) -> (r: Result<(), CCashError>)
    ensures
        r == done_or_error(response),
{
    match response {
        CCashResponse::Success { .. } => Ok(()),
        CCashResponse::Error { .. } => Err(CCashError::ErrorResponse(response)),
    }
}

/// Reads the answer of an endpoint that returns a `u32`.
pub(crate) fn read_u32_value(response: CCashResponse) -> (r: Result<u32, CCashError>)
    ensures
        r == value_or_error(response, u32_in(response.body()), 0u32),
{
    match response.convert_message_u32() {
        Ok(value) => Ok(value),
        Err(_) => Err(CCashError::ErrorResponse(response)),
    }
}

/// The address of the endpoint at `path` on the instance of `session`.
pub(crate) fn endpoint(session: &CCashSession, path: &str) -> (r: String)
    ensures
        r@ == session@.url + path@,
{
    let mut url = String::from_str(session.get_session_url());
    url.append(path);
    url
}

/// The request that asks for the balance of `user`.
pub fn get_balance_request(session: &CCashSession, user: &CCashUser) -> (r: Result<
    Request,
    CCashError,
>)
    ensures
        is_dispatch(
            r,
            session@.connected,
            dispatched(
                Method::Get,
                session@.url + "/v1/user/balance?name="@ + user@.username,
                Some(user@),
                None,
            ),
        ),
{
    let mut url = endpoint(session, "/v1/user/balance?name=");
    url.append(user.get_username());
    request(Method::Get, session, url.as_str(), Some(user), None)
}

/// The balance of the user: the number in the body of a success, or 0 where
/// the body holds none.
pub fn get_balance(response: CCashResponse) -> (r: Result<u32, CCashError>)
    ensures
        r == value_or_error(response, u32_in(response.body()), 0u32),
{
    read_u32_value(response)
}

/// The request that asks for the log of `user` in its first form.
pub fn get_log_request(session: &CCashSession, user: &CCashUser) -> (r: Result<
    Request,
    CCashError,
>)
    ensures
        is_dispatch(
            r,
            session@.connected,
            dispatched(Method::Get, session@.url + "/v1/user/log"@, Some(user@), None),
        ),
{
    let url = endpoint(session, "/v1/user/log");
    request(Method::Get, session, url.as_str(), Some(user), None)
}

/// The log of the user in its first form. `entries` is what `serde_json`
/// made of the body of the answer as an optional list of entries; a success
/// for which it gave no list is an empty log.
pub fn get_log(
    response: CCashResponse,
    entries: Result<Option<Vec<TransactionLog>>, serde_json::Error>,
) -> (r: Result<Vec<TransactionLog>, CCashError>)
    ensures
        match response {
            CCashResponse::Success { .. } => r matches Ok(log) && match value_read(entries) {
                Some(read) => log == read,
                None => log@.len() == 0,
            },
            CCashResponse::Error { .. } => r == Err::<Vec<TransactionLog>, CCashError>(
                CCashError::ErrorResponse(response),
            ),
        },
{
    match response.convert_message(entries, Vec::new()) {
        Ok(log) => Ok(log),
        Err(_) => Err(CCashError::ErrorResponse(response)),
    }
}

/// The request that asks for the log of `user` in its second form.
pub fn get_log_v2_request(session: &CCashSession, user: &CCashUser) -> (r: Result<
    Request,
    CCashError,
>)
    ensures
        is_dispatch(
            r,
            session@.connected,
            dispatched(Method::Get, session@.url + "/v2/user/log"@, Some(user@), None),
        ),
{
    let url = endpoint(session, "/v2/user/log");
    request(Method::Get, session, url.as_str(), Some(user), None)
}

/// The log of the user in its second form. `entries` is what `serde_json`
/// made of the body of the answer as an optional list of entries; a success
/// for which it gave no list is an empty log.
pub fn get_log_v2(
    response: CCashResponse,
    entries: Result<Option<Vec<TransactionLogV2>>, serde_json::Error>,
) -> (r: Result<Vec<TransactionLogV2>, CCashError>)
    ensures
        match response {
            CCashResponse::Success { .. } => r matches Ok(log) && match value_read(entries) {
                Some(read) => log == read,
                None => log@.len() == 0,
            },
            CCashResponse::Error { .. } => r == Err::<Vec<TransactionLogV2>, CCashError>(
                CCashError::ErrorResponse(response),
            ),
        },
{
    match response.convert_message(entries, Vec::new()) {
        Ok(log) => Ok(log),
        Err(_) => Err(CCashError::ErrorResponse(response)),
    }
}

/// The request that asks whether the user named as `user` exists.
pub fn contains_user_request(session: &CCashSession, user: &CCashUser) -> (r: Result<
    Request,
    CCashError,
>)
    ensures
        is_dispatch(
            r,
            session@.connected,
            dispatched(
                Method::Get,
                session@.url + "/v1/user/exists?name="@ + user@.username,
                Some(user@),
                None,
            ),
        ),
{
    let mut url = endpoint(session, "/v1/user/exists?name=");
    url.append(user.get_username());
    request(Method::Get, session, url.as_str(), Some(user), None)
}

/// Whether the user exists. The status code 401 stands for "no".
pub fn contains_user(response: CCashResponse, policy: ErrorPolicy) -> (r: Result<
    bool,
    CCashError,
>)
    ensures
        r == yes_or_no(response, 401, policy),
{
    read_yes_or_no(response, 401, policy)
}

/// The request that asks whether the password of `user` is the right one.
pub fn verify_password_request(session: &CCashSession, user: &CCashUser) -> (r: Result<
    Request,
    CCashError,
>)
    ensures
        is_dispatch(
            r,
            session@.connected,
            dispatched(Method::Post, session@.url + "/v1/user/verify_password"@, Some(user@), None),
        ),
{
    let url = endpoint(session, "/v1/user/verify_password");
    request(Method::Post, session, url.as_str(), Some(user), None)
}

/// Whether the password is the right one. The status code 401 stands for
/// "no".
pub fn verify_password(response: CCashResponse, policy: ErrorPolicy) -> (r: Result<
    bool,
    CCashError,
>)
    ensures
        r == yes_or_no(response, 401, policy),
{
    read_yes_or_no(response, 401, policy)
}

/// The request by which `user` asks for `new_password` as password.
pub fn change_password_request(session: &CCashSession, user: &CCashUser, new_password: &str) -> (r:
    Result<Request, CCashError>)
    ensures
        is_dispatch(
            r,
            session@.connected,
            dispatched(
                Method::Patch,
                session@.url + "/v1/user/change_password"@,
                Some(user@),
                Some(pass_body(new_password@)),
            ),
        ),
{
    let url = endpoint(session, "/v1/user/change_password");
    let body = write_pass_body(new_password);
    request(Method::Patch, session, url.as_str(), Some(user), Some(body))
}

/// Whether the password was changed. After a success `user` has
/// `new_password` as password, as it was given; after any other answer
/// `user` is as it was.
pub fn change_password(
    user: &mut CCashUser,
    new_password: &str,
    response: CCashResponse,
    policy: ErrorPolicy,
) -> (r: Result<bool, CCashError>)
    ensures
        r == changed_or_not(response, policy),
        final(user)@ == user_after_change(old(user)@, new_password@, response),
{
    match response {
        CCashResponse::Success { .. } => {
            user.update_password(new_password);
            Ok(true)
        },
        CCashResponse::Error { .. } => {
            if policy == ErrorPolicy::TreatErrorsAsFalse {
                Ok(false)
            } else {
                Err(CCashError::ErrorResponse(response))
            }
        },
    }
}

/// The request by which `user` sends `amount` to the user named
/// `recipient_name`.
pub fn send_funds_request(
    session: &CCashSession,
    user: &CCashUser,
    recipient_name: &str,
    amount: u32,
) -> (r: Result<Request, CCashError>)
    ensures
        is_dispatch(
            r,
            session@.connected,
            dispatched(
                Method::Post,
                session@.url + "/v1/user/transfer"@,
                Some(user@),
                Some(name_amount_body(recipient_name@, amount as int)),
            ),
        ),
{
    let url = endpoint(session, "/v1/user/transfer");
    let body = write_name_amount_body(recipient_name, amount);
    request(Method::Post, session, url.as_str(), Some(user), Some(body))
}

/// The balance of the sender after the funds were sent: the number in the
/// body of a success, or 0 where the body holds none.
pub fn send_funds(response: CCashResponse) -> (r: Result<u32, CCashError>)
    ensures
        r == value_or_error(response, u32_in(response.body()), 0u32),
{
    read_u32_value(response)
}

/// The request that registers `user`, with a balance of 0. It is sent
/// without authentication.
pub fn add_user_request(session: &CCashSession, user: &CCashUser) -> (r: Result<
    Request,
    CCashError,
>)
    ensures
        is_dispatch(
            r,
            session@.connected,
            dispatched(
                Method::Post,
                session@.url + "/v1/user/register"@,
                None,
                Some(name_pass_body(user@.username, user@.password)),
            ),
        ),
{
    let url = endpoint(session, "/v1/user/register");
    let body = write_name_pass_body(user.get_username(), user.get_password());
    request(Method::Post, session, url.as_str(), None, Some(body))
}

/// Whether the user was registered. The status code 409, which says that
/// the name is taken, stands for "no".
pub fn add_user(response: CCashResponse, policy: ErrorPolicy) -> (r: Result<bool, CCashError>)
    ensures
        r == yes_or_no(response, 409, policy),
{
    read_yes_or_no(response, 409, policy)
}

/// The request by which `user` removes its own account.
pub fn delete_user_request(session: &CCashSession, user: &CCashUser) -> (r: Result<
    Request,
    CCashError,
>)
    ensures
        is_dispatch(
            r,
            session@.connected,
            dispatched(Method::Delete, session@.url + "/v1/user/delete"@, Some(user@), None),
        ),
{
    let url = endpoint(session, "/v1/user/delete");
    request(Method::Delete, session, url.as_str(), Some(user), None)
}

/// Whether the account was removed: any error answer is an error.
pub fn delete_user(response: CCashResponse) -> (r: Result<(), CCashError>)
    ensures
        r == done_or_error(response),
{
    read_done(response)
}

/// Of an error answer, an endpoint that answers yes or no makes `false`
/// under the policy that reads every error so, whatever the status code is.
/// Under the strict policy it makes `false` of the one status code that
/// stands for "no", and hands on an answer with any other code as an error.
pub proof fn lemma_error_answers(response: CCashResponse, refusal: u16, policy: ErrorPolicy)
    requires
        response is Error,
    ensures
        policy == ErrorPolicy::TreatErrorsAsFalse ==> yes_or_no(response, refusal, policy) == Ok::<
            bool,
            CCashError,
        >(false),
        policy == ErrorPolicy::StrictErrors && response.status() == refusal ==> yes_or_no(
            response,
            refusal,
            policy,
        ) == Ok::<bool, CCashError>(false),
        policy == ErrorPolicy::StrictErrors && response.status() != refusal ==> yes_or_no(
            response,
            refusal,
            policy,
        ) == Err::<bool, CCashError>(CCashError::ErrorResponse(response)),
{
}

} // verus!
