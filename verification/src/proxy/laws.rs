//! What holds of every chain, whatever its handlers do.
//!
//! The laws speak of the record of a phase (see
//! [`request_calls`](super::chain::request_calls)): entry `i` of a record is
//! the one call made to the handler at position `i`. A handler that has no
//! entry was never called.

use super::adapter::{blank, forward_request_settled, reverse_request_step, ReverseStep};
use super::chain::{
    request_calls, request_calls_begun, request_result, response_calls, response_calls_begun,
    response_result, Chain, RequestCalls, RequestStep, ResponseCalls, ResponseStep,
};
use super::{
    request_answer, response_answer, HttpHandler, HttpResult, RequestOutcome, ResponseOutcome,
};
use http::{Request, Response};
use std::fmt::Error;
use std::sync::Arc;
use vstd::prelude::*;

verus! {

/// Where every handler recorded handed back the request it was given, every
/// one of them was given the input of the phase.
proof fn lemma_requests_unchanged<B, H: HttpHandler<B> + ?Sized>(
    handlers: Seq<Arc<H>>,
    request: Request<B>,
    calls: RequestCalls<B>,
    i: int,
)
    requires
        request_calls_begun(handlers, request, calls),
        forall|j: int|
            0 <= j < calls.len() ==> (#[trigger] calls[j]).1 == RequestOutcome::<B>::Ok(
                HttpResult::Request(calls[j].0),
            ),
        0 <= i < calls.len(),
    ensures
        calls[i].0 == request,
    decreases i,
{
    if i > 0 {
        lemma_requests_unchanged(handlers, request, calls, i - 1);
        assert(calls[i - 1].1 == RequestOutcome::<B>::Ok(HttpResult::Request(calls[i].0)));
    }
}

/// Where every handler recorded returned the response it was given, every
/// one of them was given the input of the phase.
proof fn lemma_responses_unchanged<B, H: HttpHandler<B> + ?Sized>(
    handlers: Seq<Arc<H>>,
    response: Response<B>,
    calls: ResponseCalls<B>,
    i: int,
)
    requires
        response_calls_begun(handlers, response, calls),
        forall|j: int|
            0 <= j < calls.len() ==> (#[trigger] calls[j]).1 == ResponseOutcome::<B>::Ok(
                calls[j].0,
            ),
        0 <= i < calls.len(),
    ensures
        calls[i].0 == response,
    decreases i,
{
    if i > 0 {
        lemma_responses_unchanged(handlers, response, calls, i - 1);
        assert(calls[i - 1].1 == ResponseOutcome::<B>::Ok(calls[i].0));
    }
}

/// Identity: in a chain where every handler can only pass on the request it
/// was given, the request phase returns exactly the request it was given.
/// An empty chain is such a chain.
pub proof fn lemma_request_identity<B, H: HttpHandler<B> + ?Sized>(
    chain: Chain<B, H>,
    request: Request<B>,
    outcome: RequestOutcome<B>,
)
    requires
        forall|i: int, given: Request<B>, answer: RequestOutcome<B>|
            0 <= i < chain@.len() && #[trigger] request_answer(&*chain@[i], given, answer)
                ==> answer == RequestOutcome::<B>::Ok(HttpResult::Request(given)),
        chain.request_phase(request, outcome),
    ensures
        outcome == RequestOutcome::<B>::Ok(HttpResult::Request(request)),
{
    let calls = choose|calls: RequestCalls<B>|
        #[trigger] request_calls(chain@, request, calls)
            && outcome == request_result(request, calls);
    assert forall|j: int| 0 <= j < calls.len() implies
        (#[trigger] calls[j]).1 == RequestOutcome::<B>::Ok(HttpResult::Request(calls[j].0))
    by {
        assert(request_answer(&*chain@[j], calls[j].0, calls[j].1));
    }
    if calls.len() > 0 {
        lemma_requests_unchanged(chain@, request, calls, calls.len() - 1);
    }
}

/// Identity of the response phase: in a chain where every handler can only
/// return the response it was given, the response phase returns exactly the
/// response it was given. An empty chain is such a chain.
pub proof fn lemma_response_identity<B, H: HttpHandler<B> + ?Sized>(
    chain: Chain<B, H>,
    response: Response<B>,
    outcome: ResponseOutcome<B>,
)
    requires
        forall|i: int, given: Response<B>, answer: ResponseOutcome<B>|
            0 <= i < chain@.len() && #[trigger] response_answer(&*chain@[i], given, answer)
                ==> answer == ResponseOutcome::<B>::Ok(given),
        chain.response_phase(response, outcome),
    ensures
        outcome == ResponseOutcome::<B>::Ok(response),
{
    let calls = choose|calls: ResponseCalls<B>|
        #[trigger] response_calls(chain@, response, calls)
            && outcome == response_result(response, calls);
    assert forall|j: int| 0 <= j < calls.len() implies
        (#[trigger] calls[j]).1 == ResponseOutcome::<B>::Ok(calls[j].0)
    by {
        assert(response_answer(&*chain@[j], calls[j].0, calls[j].1));
    }
    if calls.len() > 0 {
        lemma_responses_unchanged(chain@, response, calls, calls.len() - 1);
    }
}

/// Short-circuit truncation: if the handler at position `k` answered with a
/// response, it is the last handler that was called, and that response is
/// the result of the request phase. This holds for every chain and every
/// `k`.
///
/// The step that follows such an answer names no handler, whichever handler
/// gave it.
pub proof fn lemma_short_circuit_truncates<B, H: HttpHandler<B> + ?Sized>(
    chain: Chain<B, H>,
    request: Request<B>,
    calls: RequestCalls<B>,
    k: int,
    response: Response<B>,
)
    requires
        request_calls(chain@, request, calls),
        0 <= k < calls.len(),
        calls[k].1 == RequestOutcome::<B>::Ok(HttpResult::Response(response)),
    ensures
        calls.len() == k + 1,
        request_result(request, calls) == RequestOutcome::<B>::Ok(HttpResult::Response(response)),
        forall|index: usize|
            (#[trigger] chain.request_next(index, Ok(HttpResult::Response(response))))
                == RequestStep::<B, H>::Done(Ok(HttpResult::Response(response))),
{
    if k + 1 < calls.len() {
        // The handler after `k` would have been given a request that `k` passed on.
        assert(calls[k + 1 - 1].1 == RequestOutcome::<B>::Ok(HttpResult::Request(calls[k + 1].0)));
    }
}

/// Failure containment: if the handler at position `k` failed in the request
/// phase, it is the last handler that was called and the phase fails with
/// that very error; and what the forward host then hands to its engine is
/// the blank response around the empty body, never the error.
///
/// The step that follows a failure names no handler, whichever handler
/// failed.
pub proof fn lemma_request_failure_is_contained<B, H: HttpHandler<B> + ?Sized>(
    chain: Chain<B, H>,
    request: Request<B>,
    calls: RequestCalls<B>,
    k: int,
    error: Error,
    empty: B,
    settled: HttpResult<B>,
)
    requires
        request_calls(chain@, request, calls),
        0 <= k < calls.len(),
        calls[k].1 == RequestOutcome::<B>::Err(error),
        forward_request_settled(request_result(request, calls), empty, settled),
    ensures
        calls.len() == k + 1,
        request_result(request, calls) == RequestOutcome::<B>::Err(error),
        settled matches HttpResult::Response(response) && blank(empty, response),
        forall|index: usize|
            (#[trigger] chain.request_next(index, Err(error)))
                == RequestStep::<B, H>::Done(Err(error)),
{
    if k + 1 < calls.len() {
        // The handler after `k` would have been given a request that `k` passed on.
        assert(calls[k + 1 - 1].1 == RequestOutcome::<B>::Ok(HttpResult::Request(calls[k + 1].0)));
    }
}

/// Failure containment in the reverse host: if the handler at position `k`
/// failed in the request phase, the transaction ends at once with the blank
/// response around the empty body. The step is neither a call to the
/// upstream origin nor a response phase, so the origin is not contacted and
/// no handler sees the response.
pub proof fn lemma_reverse_request_failure_is_contained<B, H: HttpHandler<B> + ?Sized>(
    chain: Chain<B, H>,
    request: Request<B>,
    calls: RequestCalls<B>,
    k: int,
    error: Error,
    empty: B,
    step: ReverseStep<B>,
)
    requires
        request_calls(chain@, request, calls),
        0 <= k < calls.len(),
        calls[k].1 == RequestOutcome::<B>::Err(error),
        reverse_request_step(request_result(request, calls), empty, step),
    ensures
        step matches ReverseStep::Finish(response) && blank(empty, response),
{
    if k + 1 < calls.len() {
        // The handler after `k` would have been given a request that `k` passed on.
        assert(calls[k + 1 - 1].1 == RequestOutcome::<B>::Ok(HttpResult::Request(calls[k + 1].0)));
    }
}

/// A request phase that ends with a request has called every handler of
/// the chain exactly once, in construction order, and every one of them
/// passed a request on. So a handler that counts its calls is called once
/// in each such phase, whatever stands around it in the chain.
pub proof fn lemma_request_traversal<B, H: HttpHandler<B> + ?Sized>(
    chain: Chain<B, H>,
    request: Request<B>,
    calls: RequestCalls<B>,
)
    requires
        request_calls(chain@, request, calls),
        request_result(request, calls) matches Ok(HttpResult::Request(_)),
    ensures
        calls.len() == chain@.len(),
        forall|i: int|
            0 <= i < chain@.len()
                ==> request_answer(&*chain@[i], (#[trigger] calls[i]).0, calls[i].1),
        forall|i: int|
            0 <= i < chain@.len() ==> (#[trigger] calls[i]).1 matches Ok(HttpResult::Request(_)),
{
    assert forall|i: int| 0 <= i < calls.len() implies
        (#[trigger] calls[i]).1 matches Ok(HttpResult::Request(_))
    by {
        if i + 1 < calls.len() {
            assert(calls[i + 1 - 1].1
                == RequestOutcome::<B>::Ok(HttpResult::Request(calls[i + 1].0)));
        }
    }
}

/// Full response traversal: a response phase in which no handler fails
/// calls every handler of the chain exactly once, in construction order,
/// each with what the one before it returned, and ends with what the last
/// one returned. Nothing of the request phase enters into it: a response
/// that a handler made by short-circuiting is traversed like any other.
pub proof fn lemma_response_traversal<B, H: HttpHandler<B> + ?Sized>(
    chain: Chain<B, H>,
    response: Response<B>,
    calls: ResponseCalls<B>,
)
    requires
        response_calls(chain@, response, calls),
        response_result(response, calls) is Ok,
    ensures
        calls.len() == chain@.len(),
        forall|i: int|
            0 <= i < chain@.len()
                ==> response_answer(&*chain@[i], (#[trigger] calls[i]).0, calls[i].1),
        forall|i: int|
            0 <= i < chain@.len() ==> (#[trigger] calls[i]).0 == (if i == 0 {
                response
            } else {
                calls[i - 1].1->Ok_0
            }),
        forall|i: int| 0 <= i < chain@.len() ==> (#[trigger] calls[i]).1 is Ok,
{
    assert forall|i: int| 0 <= i < calls.len() implies (#[trigger] calls[i]).1 is Ok by {
        if i + 1 < calls.len() {
            assert(calls[i + 1 - 1].1 == ResponseOutcome::<B>::Ok(calls[i + 1].0));
        }
    }
    assert forall|i: int| 0 <= i < calls.len() implies (#[trigger] calls[i]).0 == (if i == 0 {
        response
    } else {
        calls[i - 1].1->Ok_0
    }) by {
        if i > 0 {
            assert(calls[i - 1].1 == ResponseOutcome::<B>::Ok(calls[i].0));
        }
    }
}

/// If the handler at position `k` failed in the response phase, it is the
/// last handler that was called and the phase fails with that very error.
///
/// The step that follows a failure names no handler, whichever handler
/// failed.
pub proof fn lemma_response_failure_ends_phase<B, H: HttpHandler<B> + ?Sized>(
    chain: Chain<B, H>,
    response: Response<B>,
    calls: ResponseCalls<B>,
    k: int,
    error: Error,
)
    requires
        response_calls(chain@, response, calls),
        0 <= k < calls.len(),
        calls[k].1 == ResponseOutcome::<B>::Err(error),
    ensures
        calls.len() == k + 1,
        response_result(response, calls) == ResponseOutcome::<B>::Err(error),
        forall|index: usize|
            (#[trigger] chain.response_next(index, Err(error)))
                == ResponseStep::<B, H>::Done(Err(error)),
{
    if k + 1 < calls.len() {
        // The handler after `k` would have been given a response that `k` returned.
        assert(calls[k + 1 - 1].1 == ResponseOutcome::<B>::Ok(calls[k + 1].0));
    }
}

} // verus!
