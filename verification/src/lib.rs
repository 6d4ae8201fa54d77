//! A response interceptor for request handlers that answer with an optional
//! response carrying an optional status descriptor.
//!
//! Protocols that always report success at the transport level often signal
//! failure in band, through a status code embedded in the response. The
//! interceptor in [`front`] promotes such a status code to a typed
//! [`error::Error`], so that generic error handling, which goes by the error
//! type, sees a failure instead of a payload.
//!
//! The interceptor keeps no state. It neither retries nor wraps: what the
//! inner handler returns is either handed on as it is or, where it carries a
//! status code, replaced by an application error.

pub mod error;
pub mod front;
pub mod response;

pub use error::{ApplicationError, ApplicationErrorKind, Error};
pub use front::{
    intercept, status_error, ErrorFrontLayer, ErrorFrontService, MESSAGE_ON_OTHER,
    MESSAGE_ON_SENTINEL, SENTINEL_STATUS_CODE,
};
pub use response::{BaseResp, Response};
