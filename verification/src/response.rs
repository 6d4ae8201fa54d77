//! The shape of a response, as far as the interceptor reads it.

use std::collections::HashMap;
use vstd::prelude::*;

verus! {

/// The status descriptor that a response may carry: a status code, a message
/// and further key/value metadata.
///
/// A server that does not fill the descriptor in leaves the status code
/// unset, so an absent status code is not an error.
#[derive(Clone, Debug, PartialEq, Eq)]
pub struct BaseResp {
    pub status_message: String,
    pub status_code: Option<i64>,
    pub extra: HashMap<String, String>,
}

/// A response: a body, which the interceptor carries without reading it,
/// and an optional status descriptor.
#[derive(Clone, Debug, PartialEq, Eq)]
pub struct Response<B> {
    pub body: B,
    pub base_resp: Option<BaseResp>,
}

impl<B> Response<B> {
    /// The status code at the end of the optional chain: present only where
    /// the status descriptor is present and holds a status code.
    pub open spec fn spec_status_code(&self) -> Option<i64> {
        match self.base_resp {
            Some(base_resp) => base_resp.status_code,
            None => None,
        }
    }

    /// Reads the status code through the status descriptor.
    #[verifier::when_used_as_spec(spec_status_code)]
    pub fn status_code(&self) -> (code: Option<i64>)
        ensures
            code == self.spec_status_code(),
    {
        match &self.base_resp {
            Some(base_resp) => base_resp.status_code,
            None => None,
        }
    }
}

} // verus!
