//! What a `CCash` instance answers, and the errors that the callers of this
//! library get.

use crate::json::{from_json_u32, u32_in, value_read};
use vstd::prelude::*;
use vstd::std_specs::convert::FromSpecImpl;

verus! {

/// The error of the HTTP transport. Nothing is known of what it holds.
#[verifier::external_type_specification]
#[verifier::external_body]
pub struct ExTransportError(reqwest::Error);

/// The status codes that stand for success: 200 to 299.
pub open spec fn is_success_code(code: u16) -> bool {
    200 <= code < 300
}

/// One answer of a `CCash` instance: its status code and its body as it came.
#[derive(Debug)]
pub enum CCashResponse {
    /// An answer with a status code from 200 to 299.
    Success {
        /// The status code.
        code: u16,
        /// The body of the answer, which may be empty.
        message: String,
    },
    /// An answer with any other status code.
    Error {
        /// The status code.
        code: u16,
        /// The body of the answer, which may be empty.
        message: String,
    },
}

/// The body that the transport read, or the empty text where it could not
/// read one.
pub open spec fn body_read(text: Result<String, reqwest::Error>) -> Seq<char> {
    match text {
        Ok(body) => body@,
        Err(_) => Seq::<char>::empty(),
    }
}

/// `answer` is what was received with the status code `code` and the body
/// `body`: a `Success` exactly for a code that stands for success.
pub open spec fn is_classified(answer: CCashResponse, code: u16, body: Seq<char>) -> bool {
    &&& answer is Success <==> is_success_code(code)
    &&& answer.status() == code
    &&& answer.body() == body
}

impl CCashResponse {
    /// The status code of the answer.
    pub open spec fn status(&self) -> u16 {
        match self {
            CCashResponse::Success { code, .. } => *code,
            CCashResponse::Error { code, .. } => *code,
        }
    }

    /// The body of the answer.
    pub open spec fn body(&self) -> Seq<char> {
        match self {
            CCashResponse::Success { message, .. } => message@,
            CCashResponse::Error { message, .. } => message@,
        }
    }

    /// What `convert_message` makes of the value that was read from the
    /// body, if one was read: that value, or `default` where there is none;
    /// nothing for an `Error`.
    pub open spec fn converted<T>(&self, value: Option<T>, default: T) -> Result<T, ()> {
        match self {
            CCashResponse::Success { .. } => Ok(
                match value {
                    Some(read) => read,
                    None => default,
                },
            ),
            CCashResponse::Error { .. } => Err(()),
        }
    }

    /// Classifies an answer by its status code. `text` is the body as the
    /// transport read it: a body that could not be read counts as empty.
    pub fn from_response(code: u16, text: Result<String, reqwest::Error>) -> (r: CCashResponse)
        ensures
            is_classified(r, code, body_read(text)),
    {
        let message = match text {
            Ok(body) => body,
            Err(_) => String::new(),
        };
        if 200 <= code && code < 300 {
            CCashResponse::Success { code, message }
        } else {
            CCashResponse::Error { code, message }
        }
    }

    /// Takes the value out of a `Success`. `parsed` is what `serde_json` made
    /// of the body as an optional value. Where it rejected the body, which
    /// it does for an empty one, and where the body was `null`, the result
    /// is `default`: a caller cannot tell an answer that carries no value
    /// from one that carries the default. An `Error` is always refused.
    pub fn convert_message<T>(
        &self,
        parsed: Result<Option<T>, serde_json::Error>,
        default: T,
    ) -> (r: Result<T, ()>)
        ensures
            r == self.converted(value_read(parsed), default),
    {
        match self {
            CCashResponse::Success { .. } => match parsed {
                Ok(Some(value)) => Ok(value),
                _ => Ok(default),
            },
            CCashResponse::Error { .. } => Err(()),
        }
    }

    /// `convert_message` for a body that holds a `u32`, with 0 as default.
    pub fn convert_message_u32(&self) -> (r: Result<u32, ()>)
        ensures
            r == self.converted(u32_in(self.body()), 0u32),
    {
        match self {
            CCashResponse::Success { message, .. } => {
                let parsed = from_json_u32(message.as_str());
                self.convert_message(parsed, 0)
            },
            CCashResponse::Error { .. } => Err(()),
        }
    }
}

/// What can go wrong between a call of this library and the answer of the
/// `CCash` instance.
#[derive(Debug)]
pub enum CCashError {
    /// The transport failed.
    ReqwestError(reqwest::Error),
    /// The session is not connected: `establish_connection` has not
    /// succeeded on it.
    ConnectionNotAvailable,
    /// The properties that the instance sent could not be read.
    CouldNotParsePropertiesResponse,
    /// The instance answered with an error.
    ErrorResponse(CCashResponse),
    /// This library ran into a problem of its own.
    Error(String),
}

impl From<CCashResponse> for CCashError {
    fn from(response: CCashResponse) -> (r: CCashError) {
        CCashError::ErrorResponse(response)
    }
}

impl FromSpecImpl<CCashResponse> for CCashError {
    open spec fn obeys_from_spec() -> bool {
        true
    }

    open spec fn from_spec(response: CCashResponse) -> CCashError {
        CCashError::ErrorResponse(response)
    }
}

impl From<reqwest::Error> for CCashError {
    fn from(error: reqwest::Error) -> (r: CCashError) {
        CCashError::ReqwestError(error)
    }
}

impl FromSpecImpl<reqwest::Error> for CCashError {
    open spec fn obeys_from_spec() -> bool {
        true
    }

    open spec fn from_spec(error: reqwest::Error) -> CCashError {
        CCashError::ReqwestError(error)
    }
}

} // verus!
