//! The interceptor: a layer in front of a handler that turns a status code
//! embedded in a successful response into an error.

use crate::error::{ApplicationError, ApplicationErrorKind, Error};
use crate::response::Response;
use vstd::prelude::*;

verus! {

/// The status code that the serving side sets for the condition that the
/// interceptor reports as [`MESSAGE_ON_SENTINEL`].
pub const SENTINEL_STATUS_CODE: i64 = 12345678;

/// The message of the error that replaces a response whose status code is
/// [`SENTINEL_STATUS_CODE`].
pub const MESSAGE_ON_SENTINEL: &'static str = "Good Morning";

/// The message of the error that replaces a response with any other status
/// code.
pub const MESSAGE_ON_OTHER: &'static str = "Good Evening";

/// The message that the interceptor reports for a status code.
pub open spec fn status_message(code: i64) -> Seq<char> {
    if code == SENTINEL_STATUS_CODE {
        MESSAGE_ON_SENTINEL@
    } else {
        MESSAGE_ON_OTHER@
    }
}

/// The error that stands for a status code.
pub fn status_error(code: i64) -> (e: ApplicationError)
    ensures
        e.kind == ApplicationErrorKind::UnknownMethod,
        e.message@ == status_message(code),
{
    if code == SENTINEL_STATUS_CODE {
        ApplicationError::new(ApplicationErrorKind::UnknownMethod, MESSAGE_ON_SENTINEL)
    } else {
        ApplicationError::new(ApplicationErrorKind::UnknownMethod, MESSAGE_ON_OTHER)
    }
}

/// Whether `out` is an application error of kind `UnknownMethod` with the
/// given message.
pub open spec fn is_status_error<B, T>(
    out: Result<Option<Response<B>>, Error<T>>,
    message: Seq<char>,
) -> bool {
    &&& out matches Err(Error::Application(e))
    &&& e.kind == ApplicationErrorKind::UnknownMethod
    &&& e.message@ == message
}

/// The status code that the result of the inner handler carries: present
/// only where the handler succeeded, the response is present, its status
/// descriptor is present and the descriptor holds a status code.
pub open spec fn status_code_in<B, T>(inner: Result<Option<Response<B>>, Error<T>>) -> Option<i64> {
    match inner {
        Ok(Some(response)) => response.status_code(),
        _ => None,
    }
}

/// Whether `out` is what the interceptor owes for the result `inner` of the
/// inner handler: `inner` itself where it carries no status code, and else
/// the error that stands for the status code.
pub open spec fn intercepted<B, T>(
    inner: Result<Option<Response<B>>, Error<T>>,
    out: Result<Option<Response<B>>, Error<T>>,
) -> bool {
    match status_code_in(inner) {
        Some(code) => is_status_error(out, status_message(code)),
        None => out == inner,
    }
}

/// Decides what the interceptor returns for the result of the inner handler.
///
/// A failure of the inner handler is handed on as it is. So is a success
/// without a response, without a status descriptor or without a status code.
/// A response with a status code is dropped, and an error of kind
/// `UnknownMethod` takes its place, whose message depends on whether the
/// status code is [`SENTINEL_STATUS_CODE`].
pub fn intercept<B, T>(inner: Result<Option<Response<B>>, Error<T>>) -> (out: Result<
    Option<Response<B>>,
    Error<T>,
>)
    ensures
        intercepted(inner, out),
        // A failure of the inner handler comes out as it went in.
        inner is Err ==> out == inner,
        // Absence at any level of the chain is success, with nothing changed.
        inner matches Ok(None) ==> out == inner,
        inner matches Ok(Some(r)) && r.base_resp is None ==> out == inner,
        inner matches Ok(Some(r)) && r.base_resp matches Some(b) && b.status_code is None
            ==> out == inner,
        // A status code, once present, always ends in an error.
        inner matches Ok(Some(r)) && r.base_resp matches Some(b)
            && b.status_code == Some(SENTINEL_STATUS_CODE)
            ==> is_status_error(out, MESSAGE_ON_SENTINEL@),
        inner matches Ok(Some(r)) && r.base_resp matches Some(b)
            && b.status_code matches Some(code) && code != SENTINEL_STATUS_CODE
            ==> is_status_error(out, MESSAGE_ON_OTHER@),
{
    match inner {
        Err(e) => Err(e),
        Ok(None) => Ok(None),
        Ok(Some(response)) => match response.status_code() {
            None => Ok(Some(response)),
            Some(code) => Err(Error::Application(status_error(code))),
        },
    }
}

/// The layer that puts the interceptor in front of a handler.
#[derive(Clone, Copy, Debug)]
pub struct ErrorFrontLayer;

impl ErrorFrontLayer {
    /// Wraps `inner` in the interceptor.
    pub fn layer<S>(self, inner: S) -> (service: ErrorFrontService<S>)
        ensures
            service.inner() == inner,
    {
        ErrorFrontService(inner)
    }
}

/// A handler with the interceptor in front of it.
#[derive(Clone)]
pub struct ErrorFrontService<S>(S);

impl<S> ErrorFrontService<S> {
    /// The handler behind the interceptor.
    pub closed spec fn inner(&self) -> S {
        self.0
    }

    /// Takes the interceptor off and gives the handler back.
    pub fn into_inner(self) -> (inner: S)
        ensures
            inner == self.inner(),
    {
        self.0
    }

    /// Hands `req` to the inner handler, once and as it is, and decides by
    /// [`intercept`] what to return for the handler's result.
    ///
    /// The handler may answer one request in more than one way, so the
    /// contract speaks of some result that the handler can give for `req`.
    pub fn call<Req, B, T>(&self, req: Req) -> (out: Result<Option<Response<B>>, Error<T>>) where
        S: Fn(Req) -> Result<Option<Response<B>>, Error<T>>,

        requires
            call_requires(self.inner(), (req,)),
        ensures
            exists|inner: Result<Option<Response<B>>, Error<T>>|
                #[trigger] call_ensures(self.inner(), (req,), inner) && intercepted(inner, out),
    {
        let inner = (self.0)(req);
        intercept(inner)
    }
}

} // verus!
