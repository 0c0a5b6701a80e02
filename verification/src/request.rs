//! The request that stands for one call of a `CCash` endpoint, and the
//! answer that comes back for it. This library sends nothing itself: it says
//! what is to be sent, and reads what was received.

use crate::responses::{body_read, is_classified, CCashError, CCashResponse};
use crate::session::CCashSession;
use crate::user::{CCashUser, Credentials};
use vstd::prelude::*;
use vstd::string::StringExecFns;

verus! {

/// The HTTP methods that the endpoints of `CCash` use.
#[derive(Clone, Copy, Debug, PartialEq, Eq, Structural)]
pub enum Method {
    Get,
    Post,
    Patch,
    Delete,
}

/// One HTTP request, ready to be sent.
#[derive(Debug)]
pub struct Request {
    /// The HTTP method.
    pub method: Method,
    /// The address that the request goes to.
    pub url: String,
    /// The value of the `Accept` header.
    pub accept: String,
    /// The value of the `Content-Type` header, where the request has one.
    pub content_type: Option<String>,
    /// The user whose name and password go into HTTP basic authentication,
    /// where the request is authenticated.
    pub auth: Option<CCashUser>,
    /// The body, where the request has one: a JSON text.
    pub body: Option<String>,
}

/// The view of a `Request`.
pub struct RequestView {
    pub method: Method,
    pub url: Seq<char>,
    pub accept: Seq<char>,
    pub content_type: Option<Seq<char>>,
    pub auth: Option<Credentials>,
    pub body: Option<Seq<char>>,
}

impl View for Request {
    type V = RequestView;

    open spec fn view(&self) -> RequestView {
        RequestView {
            method: self.method,
            url: self.url@,
            accept: self.accept@,
            content_type: match self.content_type {
                Some(value) => Some(value@),
                None => None,
            },
            auth: match self.auth {
                Some(user) => Some(user@),
                None => None,
            },
            body: match self.body {
                Some(text) => Some(text@),
                None => None,
            },
        }
    }
}

/// The request that `request` makes on a connected session: both headers
/// name JSON, `user` authenticates it where there is one, and `body` is sent
/// along where there is one.
pub open spec fn dispatched(
    method: Method,
    uri: Seq<char>,
    user: Option<Credentials>,
    body: Option<Seq<char>>,
) -> RequestView {
    RequestView {
        method,
        url: uri,
        accept: "application/json"@,
        content_type: Some("application/json"@),
        auth: user,
        body,
    }
}

/// The view of a user that may be absent.
pub open spec fn credentials_of(user: Option<&CCashUser>) -> Option<Credentials> {
    match user {
        Some(u) => Some(u@),
        None => None,
    }
}

/// The view of a text that may be absent.
pub open spec fn text_of(text: Option<String>) -> Option<Seq<char>> {
    match text {
        Some(t) => Some(t@),
        None => None,
    }
}

/// What `request` returns: nothing but `ConnectionNotAvailable` while the
/// session is not connected, and `expected` once it is.
pub open spec fn is_dispatch(
    r: Result<Request, CCashError>,
    connected: bool,
    expected: RequestView,
) -> bool {
    match r {
        Ok(request) => connected && request@ == expected,
        Err(error) => !connected && error is ConnectionNotAvailable,
    }
}

/// The transport handle of a connected session.
pub fn get_client(session: &CCashSession) -> (r: Result<&reqwest::Client, CCashError>)
    ensures
        match r {
            Ok(client) => session@.connected && session@.client == Some(*client),
            Err(error) => !session@.connected && error is ConnectionNotAvailable,
        },
{
    if !session.is_connected() {
        return Err(CCashError::ConnectionNotAvailable);
    }
    match session.get_client() {
        Some(client) => Ok(client),
        None => Err(CCashError::ConnectionNotAvailable),
    }
}

/// Makes the request for one call of an endpoint. A session that is not
/// connected gets `ConnectionNotAvailable` and no request, whatever the
/// method, the address, the user and the body are.
pub fn request(
    method: Method,
    session: &CCashSession,
    uri: &str,
    user: Option<&CCashUser>,
    body: Option<String>,
) -> (r: Result<Request, CCashError>)
    ensures
        is_dispatch(
            r,
            session@.connected,
            dispatched(method, uri@, credentials_of(user), text_of(body)),
        ),
{
    if !session.is_connected() {
        return Err(CCashError::ConnectionNotAvailable);
    }
    let auth = match user {
        Some(u) => Some(u.clone()),
        None => None,
    };
    Ok(
        Request {
            method,
            url: String::from_str(uri),
            accept: String::from_str("application/json"),
            content_type: Some(String::from_str("application/json")),
            auth,
            body,
        },
    )
}

/// Reads what came back for a request that was sent. A failure of the
/// transport is handed on as it is. An answer that was received is
/// classified by its status code, whatever the code is, and keeps its body.
pub fn response(received: Result<(u16, Result<String, reqwest::Error>), reqwest::Error>) -> (r:
    Result<CCashResponse, CCashError>)
    ensures
        match received {
            Ok((code, text)) => r matches Ok(answer) && is_classified(
                answer,
                code,
                body_read(text),
            ),
            Err(failure) => r matches Err(CCashError::ReqwestError(error)) && error == failure,
        },
{
    match received {
        Ok((code, text)) => Ok(CCashResponse::from_response(code, text)),
        Err(failure) => Err(CCashError::ReqwestError(failure)),
    }
}

} // verus!
