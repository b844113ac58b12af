//! A handler that changes nothing.
//!
//! It is the place where a host records what passes by: the method and
//! target of a request, the status of a response. The record itself is the
//! host's business; what this handler owes the chain is that it hands every
//! message on untouched and never fails.

use crate::proxy::{HttpHandler, HttpResult, RequestOutcome, ResponseOutcome};
use http::{Request, Response};
use vstd::prelude::*;

verus! {

/// Passes every request and every response through unchanged. It never
/// short-circuits and never fails.
pub struct LogHandler<B> {
    body: Ghost<B>,
}

impl<B> LogHandler<B> {
    /// A new handler. It keeps no state.
    pub fn new() -> (handler: Self) {
        LogHandler { body: Ghost(arbitrary()) }
    }
}

impl<B: 'static> HttpHandler<B> for LogHandler<B> {
    /// Passes `request` on as it is.
    fn handle_request(&self, request: Request<B>) -> (outcome: RequestOutcome<B>)
        ensures
            outcome == RequestOutcome::<B>::Ok(HttpResult::Request(request)),
    {
        Ok(HttpResult::Request(request))
    }

    /// Returns `response` as it is.
    fn handle_response(&self, response: Response<B>) -> (outcome: ResponseOutcome<B>)
        ensures
            outcome == ResponseOutcome::<B>::Ok(response),
    {
        Ok(response)
    }
}

} // verus!
