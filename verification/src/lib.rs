//! A client library for the `CCash` ledger service. The library does no
//! input or output of its own: for each endpoint it makes the request that
//! is to be sent, and reads the answer that was received.

pub mod json;
pub mod log;
pub mod methods;
pub mod request;
pub mod responses;
pub mod session;
pub mod text;
pub mod user;

pub use crate::log::{TransactionLog, TransactionLogV2};
pub use crate::responses::{CCashError, CCashResponse};
pub use crate::session::{CCashSession, CCashSessionProperties};
pub use crate::user::{CCashUser, CCashUsernameError};
