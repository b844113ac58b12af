//! What a hosting engine does with the outcome of a phase.
//!
//! A host never lets a failure escape into the engine that drives it: every
//! failure, of a handler or of the upstream origin, becomes a blank response
//! around an empty body, and that response is what the client gets. No
//! handler sees it. The host supplies the empty body, since only it knows
//! the body type; the library decides when it is used.
//!
//! The transparent (forward) host is called once when a request has arrived
//! and once when the origin has answered: [`forward_request`] and
//! [`forward_response`] settle the two phases. The explicit (reverse) host
//! runs the whole transaction, with its own call to the upstream origin in
//! the middle: [`reverse_request`], [`reverse_upstream`] and
//! [`reverse_response`] each say what it does next.

use super::{HttpResult, RequestOutcome, ResponseOutcome};
use http::{Request, Response};
use vstd::prelude::*;

verus! {

/// `response` is the blank response around `body`: what
/// `http::Response::new` returns for it. By that function's documentation
/// such a response has status 200 and no headers; no contract here relies
/// on it, since the library never looks inside a message.
pub open spec fn blank<B>(body: B, response: Response<B>) -> bool {
    call_ensures(Response::<B>::new, (body,), response)
}

/// `settled` is what the forward host hands to its engine after a request
/// phase that ended with `outcome`.
pub open spec fn forward_request_settled<B>(
    outcome: RequestOutcome<B>,
    empty: B,
    settled: HttpResult<B>,
) -> bool {
    match outcome {
        Ok(result) => settled == result,
        Err(_) => settled matches HttpResult::Response(response) && blank(empty, response),
    }
}

/// `response` is what a host hands back after a response phase that ended
/// with `outcome`.
pub open spec fn response_settled<B>(
    outcome: ResponseOutcome<B>,
    empty: B,
    response: Response<B>,
) -> bool {
    match outcome {
        Ok(result) => response == result,
        Err(_) => blank(empty, response),
    }
}

/// Settles the request phase for the forward host.
///
/// A request goes back to the engine, which forwards it to the origin. A
/// response goes back to the engine, which never contacts the origin. A
/// failure becomes the blank response around `empty`.
pub fn forward_request<B>(outcome: RequestOutcome<B>, empty: B) -> (settled: HttpResult<B>)
    ensures
        forward_request_settled(outcome, empty, settled),
{
    match outcome {
        Ok(result) => result,
        Err(_) => HttpResult::Response(Response::new(empty)),
    }
}

/// Settles the response phase for the forward host: the response that the
/// chain returned, or the blank response around `empty` if it failed.
pub fn forward_response<B>(outcome: ResponseOutcome<B>, empty: B) -> (response: Response<B>)
    ensures
        response_settled(outcome, empty, response),
{
    match outcome {
        Ok(result) => result,
        Err(_) => Response::new(empty),
    }
}

/// What the reverse host does next in a transaction.
#[derive(Debug)]
#[verifier::reject_recursive_types(B)]
pub enum ReverseStep<B> {
    /// Send this request to the upstream origin; the result goes to
    /// [`reverse_upstream`].
    Fetch(Request<B>),
    /// Run the response phase on this response; the outcome goes to
    /// [`reverse_response`].
    Respond(Response<B>),
    /// Hand this response to the client: the transaction is over.
    Finish(Response<B>),
}

/// `step` is what the reverse host does after a request phase that ended
/// with `outcome`.
pub open spec fn reverse_request_step<B>(
    outcome: RequestOutcome<B>,
    empty: B,
    step: ReverseStep<B>,
) -> bool {
    match outcome {
        Ok(HttpResult::Request(request)) => step == ReverseStep::Fetch(request),
        Ok(HttpResult::Response(response)) => step == ReverseStep::Respond(response),
        Err(_) => step matches ReverseStep::Finish(response) && blank(empty, response),
    }
}

/// Step after a request phase that ended with `outcome`.
///
/// A request is sent upstream. A response skips the upstream call and goes
/// to the response phase. A failure ends the transaction at once with the
/// blank response around `empty`: the origin is not contacted and no
/// handler sees the response.
pub fn reverse_request<B>(outcome: RequestOutcome<B>, empty: B) -> (step: ReverseStep<B>)
    ensures
        reverse_request_step(outcome, empty, step),
{
    match outcome {
        Ok(HttpResult::Request(request)) => ReverseStep::Fetch(request),
        Ok(HttpResult::Response(response)) => ReverseStep::Respond(response),
        Err(_) => ReverseStep::Finish(Response::new(empty)),
    }
}

/// Step after the upstream call returned `fetched`.
///
/// An upstream response goes to the response phase. A transport failure, of
/// whatever kind `T`, ends the transaction at once with the blank response
/// around `empty`: no handler sees it, and nothing is tried again.
pub fn reverse_upstream<B, T>(fetched: Result<Response<B>, T>, empty: B) -> (step: ReverseStep<B>)
    ensures
        match fetched {
            Ok(response) => step == ReverseStep::Respond(response),
            Err(_) => step matches ReverseStep::Finish(response) && blank(empty, response),
        },
{
    match fetched {
        Ok(response) => ReverseStep::Respond(response),
        Err(_) => ReverseStep::Finish(Response::new(empty)),
    }
}

/// Step after a response phase that ended with `outcome`: the transaction
/// finishes with the response that the chain returned, or with the blank
/// response around `empty` if it failed.
pub fn reverse_response<B>(outcome: ResponseOutcome<B>, empty: B) -> (step: ReverseStep<B>)
    ensures
        step matches ReverseStep::Finish(response) && response_settled(outcome, empty, response),
{
    ReverseStep::Finish(forward_response(outcome, empty))
}

} // verus!
