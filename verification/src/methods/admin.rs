//! The endpoints of `CCash` that only an admin may call. Each takes the
//! admin as the user who authenticates the request. Whether that user is an
//! admin is for the instance to say: a request by anyone else comes back as
//! an error answer.

use crate::json::{
    amount_time_body, from_json_u64, json_u64, name_amount_body, name_body,
    name_pass_amount_body, name_pass_body, write_amount_time_body, write_name_amount_body,
    write_name_body, write_name_change_body, write_name_pass_amount_body, write_name_pass_body,
};
use crate::methods::{
    changed_or_not, done_or_error, endpoint, read_done, read_yes_or_no, user_after_change,
    yes_or_no, ErrorPolicy,
};
use crate::request::{dispatched, is_dispatch, request, Method, Request};
use crate::responses::{CCashError, CCashResponse};
use crate::session::{disconnected, CCashSession};
use crate::user::CCashUser;
use vstd::prelude::*;
use vstd::string::StringExecFns;

verus! {

/// The request that asks whether `user` is an admin.
pub fn verify_account_request(session: &CCashSession, user: &CCashUser) -> (r: Result<
    Request,
    CCashError,
>)
    ensures
        is_dispatch(
            r,
            session@.connected,
            dispatched(
                Method::Post,
                session@.url + "/v1/admin/verify_account"@,
                Some(user@),
                None,
            ),
        ),
{
    let url = endpoint(session, "/v1/admin/verify_account");
    request(Method::Post, session, url.as_str(), Some(user), None)
}

/// Whether the user is an admin. The status code 401 stands for "no".
pub fn verify_account(response: CCashResponse, policy: ErrorPolicy) -> (r: Result<
    bool,
    CCashError,
>)
    ensures
        r == yes_or_no(response, 401, policy),
{
    read_yes_or_no(response, 401, policy)
}

/// The request by which the admin gives `user` the password
/// `new_password`.
pub fn change_password_request(
    session: &CCashSession,
    admin_user: &CCashUser,
    user: &CCashUser,
    new_password: &str,
) -> (r: Result<Request, CCashError>)
    ensures
        is_dispatch(
            r,
            session@.connected,
            dispatched(
                Method::Patch,
                session@.url + "/v1/admin/user/change_password"@,
                Some(admin_user@),
                Some(name_pass_body(user@.username, new_password@)),
            ),
        ),
{
    let url = endpoint(session, "/v1/admin/user/change_password");
    let body = write_name_pass_body(user.get_username(), new_password);
    request(Method::Patch, session, url.as_str(), Some(admin_user), Some(body))
}

/// Whether the password was changed. After a success `user` has
/// `new_password` as password, as it was given; after any other answer
/// `user` is as it was.
pub fn change_password(
    user: &mut CCashUser,
    new_password: &str,
    response: CCashResponse,
    policy: ErrorPolicy,
) -> (r: Result<bool, CCashError>)
    ensures
        r == changed_or_not(response, policy),
        final(user)@ == user_after_change(old(user)@, new_password@, response),
{
    match response {
        CCashResponse::Success { .. } => {
            user.update_password(new_password);
            Ok(true)
        },
        CCashResponse::Error { .. } => {
            if policy == ErrorPolicy::TreatErrorsAsFalse {
                Ok(false)
            } else {
                Err(CCashError::ErrorResponse(response))
            }
        },
    }
}

/// The request that sets the balance of the user named `username` to
/// `new_balance`.
pub fn set_balance_request(
    session: &CCashSession,
    admin_user: &CCashUser,
    username: &str,
    new_balance: u32,
) -> (r: Result<Request, CCashError>)
    ensures
        is_dispatch(
            r,
            session@.connected,
            dispatched(
                Method::Patch,
                session@.url + "/v1/admin/set_balance"@,
                Some(admin_user@),
                Some(name_amount_body(username@, new_balance as int)),
            ),
        ),
{
    let url = endpoint(session, "/v1/admin/set_balance");
    let body = write_name_amount_body(username, new_balance);
    request(Method::Patch, session, url.as_str(), Some(admin_user), Some(body))
}

/// Whether the balance was set: any error answer is an error.
pub fn set_balance(response: CCashResponse) -> (r: Result<(), CCashError>)
    ensures
        r == done_or_error(response),
{
    read_done(response)
}

/// The request that changes the balance of the user named `username` by
/// `amount`, up or down.
pub fn impact_balance_request(
    session: &CCashSession,
    admin_user: &CCashUser,
    username: &str,
    amount: i64,
) -> (r: Result<Request, CCashError>)
    ensures
        is_dispatch(
            r,
            session@.connected,
            dispatched(
                Method::Post,
                session@.url + "/v1/admin/impact_balance"@,
                Some(admin_user@),
                Some(name_amount_body(username@, amount as int)),
            ),
        ),
{
    let url = endpoint(session, "/v1/admin/impact_balance");
    let body = write_name_change_body(username, amount);
    request(Method::Post, session, url.as_str(), Some(admin_user), Some(body))
}

/// Whether the balance was changed: any error answer is an error.
pub fn impact_balance(response: CCashResponse) -> (r: Result<(), CCashError>)
    ensures
        r == done_or_error(response),
{
    read_done(response)
}

/// The request that registers `new_user` with a balance of `amount`.
pub fn add_user_request(
    session: &CCashSession,
    admin_user: &CCashUser,
    new_user: &CCashUser,
    amount: u32,
) -> (r: Result<Request, CCashError>)
    ensures
        is_dispatch(
            r,
            session@.connected,
            dispatched(
                Method::Post,
                session@.url + "/v1/admin/user/register"@,
                Some(admin_user@),
                Some(name_pass_amount_body(new_user@.username, new_user@.password, amount as int)),
            ),
        ),
{
    let url = endpoint(session, "/v1/admin/user/register");
    let body = write_name_pass_amount_body(
        new_user.get_username(),
        new_user.get_password(),
        amount,
    );
    request(Method::Post, session, url.as_str(), Some(admin_user), Some(body))
}

/// Whether the user was registered. The status code 409, which says that
/// the name is taken, stands for "no".
pub fn add_user(response: CCashResponse, policy: ErrorPolicy) -> (r: Result<bool, CCashError>)
    ensures
        r == yes_or_no(response, 409, policy),
{
    read_yes_or_no(response, 409, policy)
}

/// The request that removes the user named `username`.
pub fn delete_user_request(session: &CCashSession, admin_user: &CCashUser, username: &str) -> (r:
    Result<Request, CCashError>)
    ensures
        is_dispatch(
            r,
            session@.connected,
            dispatched(
                Method::Delete,
                session@.url + "/v1/admin/user/delete"@,
                Some(admin_user@),
                Some(name_body(username@)),
            ),
        ),
{
    let url = endpoint(session, "/v1/admin/user/delete");
    let body = write_name_body(username);
    request(Method::Delete, session, url.as_str(), Some(admin_user), Some(body))
}

/// Whether the user was removed: any error answer is an error.
pub fn delete_user(response: CCashResponse) -> (r: Result<(), CCashError>)
    ensures
        r == done_or_error(response),
{
    read_done(response)
}

/// The request that prunes the users with a balance under `amount`; where
/// `time` is given, only those among them without a transaction since then.
pub fn prune_users_request(
    session: &CCashSession,
    admin_user: &CCashUser,
    amount: u32,
    time: Option<i64>,
) -> (r: Result<Request, CCashError>)
    ensures
        is_dispatch(
            r,
            session@.connected,
            dispatched(
                Method::Post,
                session@.url + "/v1/admin/prune_users"@,
                Some(admin_user@),
                Some(amount_time_body(amount as int, time)),
            ),
        ),
{
    let url = endpoint(session, "/v1/admin/prune_users");
    let body = write_amount_time_body(amount, time);
    request(Method::Post, session, url.as_str(), Some(admin_user), Some(body))
}

/// The count of pruned users in what `serde_json` made of the body of a
/// success as an optional `u64`: the number that it read, 0 where it read
/// `null`, and an error of this library where it rejected the body.
pub open spec fn is_pruned_count(r: Result<u64, CCashError>, reading: Option<Option<u64>>) -> bool {
    match reading {
        Some(Some(count)) => r == Ok::<u64, CCashError>(count),
        Some(None) => r == Ok::<u64, CCashError>(0u64),
        None => r matches Err(CCashError::Error(text)) && text@
            == "Could not parse amount of users pruned into a valid u64"@,
    }
}

/// The count of pruned users, given what `serde_json` made of the body of
/// a success as an optional `u64`: the number that it read, 0 where it read
/// `null`, and an error of this library where it rejected the body.
pub fn pruned_count(reading: Result<Option<u64>, serde_json::Error>) -> (r: Result<
    u64,
    CCashError,
>)
    ensures
        match reading {
            Ok(value) => is_pruned_count(r, Some(value)),
            Err(_) => is_pruned_count(r, None),
        },
{
    match reading {
        Ok(Some(count)) => Ok(count),
        Ok(None) => Ok(0),
        Err(_) => Err(
            CCashError::Error(
                String::from_str("Could not parse amount of users pruned into a valid u64"),
            ),
        ),
    }
}

/// How many users were pruned. A success gives the number in its body, and
/// 0 where the body is `null`; a success whose body is no such number, as
/// an empty one is none, gives an error of this library. An error answer is
/// handed on as an error.
pub fn prune_users(response: CCashResponse) -> (r: Result<u64, CCashError>)
    ensures
        match response {
            CCashResponse::Success { .. } => is_pruned_count(r, json_u64(response.body())),
            CCashResponse::Error { .. } => r == Err::<u64, CCashError>(
                CCashError::ErrorResponse(response),
            ),
        },
{
    match response {
        CCashResponse::Success { message, .. } => pruned_count(from_json_u64(message.as_str())),
        CCashResponse::Error { .. } => Err(CCashError::ErrorResponse(response)),
    }
}

/// The request that makes the instance save its state and shut down.
pub fn close_request(session: &CCashSession, admin_user: &CCashUser) -> (r: Result<
    Request,
    CCashError,
>)
    ensures
        is_dispatch(
            r,
            session@.connected,
            dispatched(
                Method::Post,
                session@.url + "/v1/admin/shutdown"@,
                Some(admin_user@),
                None,
            ),
        ),
{
    let url = endpoint(session, "/v1/admin/shutdown");
    request(Method::Post, session, url.as_str(), Some(admin_user), None)
}

/// Whether the instance shut down. After a success the session is no longer
/// connected and has neither transport handle nor properties; after an
/// error answer, which is an error, the session is as it was.
pub fn close(session: &mut CCashSession, response: CCashResponse) -> (r: Result<(), CCashError>)
    ensures
        r == done_or_error(response),
        final(session)@ == if response is Success {
            disconnected(old(session)@.url)
        } else {
            old(session)@
        },
{
    match response {
        CCashResponse::Success { .. } => {
            session.disconnect();
            Ok(())
        },
        CCashResponse::Error { .. } => Err(CCashError::ErrorResponse(response)),
    }
}

} // verus!
