//! The chain: an ordered, fixed sequence of shared handlers.
//!
//! A phase is run step by step. [`Chain::begin_request`] and
//! [`Chain::resume_request`] (and their response-phase twins) decide what
//! happens next from what the last handler answered; they never call a
//! handler themselves. [`Chain::process_request`] and
//! [`Chain::process_response`] drive those steps to the end for handlers that
//! answer at once. A host whose handlers suspend runs the same steps and
//! waits between them.

use super::{
    request_answer, response_answer, HttpHandler, HttpResult, RequestOutcome, ResponseOutcome,
};
use http::{Request, Response};
use std::sync::Arc;
use vstd::prelude::*;

verus! {

/// `Arc::clone` of std: a new pointer to the same allocation, so the value
/// behind `copy` is the value behind `pointer`.
#[verifier::external_body]
fn share<T: ?Sized>(pointer: &Arc<T>) -> (copy: Arc<T>)
    ensures
        copy == *pointer,
{
    Arc::clone(pointer)
}

/// An ordered sequence of handlers over the body type `B`, fixed when the
/// chain is built and shared by every copy of the chain.
///
/// The chain holds no other state: there is nothing for two transactions to
/// contend for but what a handler keeps for itself.
pub struct Chain<B, H: ?Sized> {
    handlers: Arc<Vec<Arc<H>>>,
    body: Ghost<B>,
}

/// Where the request phase of one transaction stands.
#[verifier::reject_recursive_types(B)]
pub enum RequestStep<'a, B, H: ?Sized> {
    /// `handler`, the handler at position `index`, is to be given `request`.
    /// Its answer goes to [`Chain::resume_request`] together with `index`.
    Call { index: usize, handler: &'a H, request: Request<B> },
    /// The phase is over, with this outcome.
    Done(RequestOutcome<B>),
}

/// Where the response phase of one transaction stands.
#[verifier::reject_recursive_types(B)]
pub enum ResponseStep<'a, B, H: ?Sized> {
    /// `handler`, the handler at position `index`, is to be given
    /// `response`. Its answer goes to [`Chain::resume_response`] together
    /// with `index`.
    Call { index: usize, handler: &'a H, response: Response<B> },
    /// The phase is over, with this outcome.
    Done(ResponseOutcome<B>),
}

impl<B, H: ?Sized> Chain<B, H> {
    /// The handlers, in the order in which they are consulted.
    pub closed spec fn view(&self) -> Seq<Arc<H>> {
        self.handlers@
    }

    /// Builds a chain of `handlers`, in the order given. Any sequence is
    /// accepted; an empty one makes a chain that changes nothing.
    pub fn new(handlers: Vec<Arc<H>>) -> (chain: Self)
        ensures
            chain@ == handlers@,
    {
        Chain { handlers: Arc::new(handlers), body: Ghost(arbitrary()) }
    }

    /// Number of handlers.
    pub fn len(&self) -> (n: usize)
        ensures
            n == self@.len(),
    {
        self.handlers.len()
    }

    /// First step of the request phase for `request`.
    pub open spec fn request_first(&self, request: Request<B>) -> RequestStep<'_, B, H> {
        if self@.len() == 0 {
            RequestStep::Done(Ok(HttpResult::Request(request)))
        } else {
            RequestStep::Call { index: 0, handler: &*self@[0], request }
        }
    }

    /// Step that follows when the handler at `index` has given `answer`.
    ///
    /// A request that is passed on goes to the next handler, or ends the
    /// phase if there is none. A response or a failure ends the phase at
    /// once: no later handler is named.
    pub open spec fn request_next(
        &self,
        index: usize,
        answer: RequestOutcome<B>,
    ) -> RequestStep<'_, B, H> {
        match answer {
            Ok(HttpResult::Request(next)) => if index + 1 < self@.len() {
                RequestStep::Call {
                    index: (index + 1) as usize,
                    handler: &*self@[index + 1],
                    request: next,
                }
            } else {
                RequestStep::Done(answer)
            },
            _ => RequestStep::Done(answer),
        }
    }

    /// First step of the response phase for `response`.
    pub open spec fn response_first(&self, response: Response<B>) -> ResponseStep<'_, B, H> {
        if self@.len() == 0 {
            ResponseStep::Done(Ok(response))
        } else {
            ResponseStep::Call { index: 0, handler: &*self@[0], response }
        }
    }

    /// Step that follows when the handler at `index` has given `answer`.
    ///
    /// A response goes to the next handler, or ends the phase if there is
    /// none. Only a failure ends the phase early.
    pub open spec fn response_next(
        &self,
        index: usize,
        answer: ResponseOutcome<B>,
    ) -> ResponseStep<'_, B, H> {
        match answer {
            Ok(next) => if index + 1 < self@.len() {
                ResponseStep::Call {
                    index: (index + 1) as usize,
                    handler: &*self@[index + 1],
                    response: next,
                }
            } else {
                ResponseStep::Done(answer)
            },
            Err(_) => ResponseStep::Done(answer),
        }
    }

    /// Starts the request phase: names the first handler, or ends the phase
    /// with `request` unchanged if the chain is empty.
    pub fn begin_request(&self, request: Request<B>) -> (step: RequestStep<'_, B, H>)
        ensures
            step == self.request_first(request),
    {
        if self.handlers.len() == 0 {
            RequestStep::Done(Ok(HttpResult::Request(request)))
        } else {
            RequestStep::Call { index: 0, handler: &*self.handlers[0], request }
        }
    }

    /// Continues the request phase with the `answer` of the handler at
    /// `index`.
    pub fn resume_request(
        &self,
        index: usize,
        answer: RequestOutcome<B>,
    ) -> (step: RequestStep<'_, B, H>)
        ensures
            step == self.request_next(index, answer),
    {
        match answer {
            Ok(HttpResult::Request(next)) => {
                let n = self.handlers.len();
                if index < n && index + 1 < n {
                    RequestStep::Call {
                        index: index + 1,
                        handler: &*self.handlers[index + 1],
                        request: next,
                    }
                } else {
                    RequestStep::Done(Ok(HttpResult::Request(next)))
                }
            },
            other => RequestStep::Done(other),
        }
    }

    /// Starts the response phase: names the first handler, or ends the phase
    /// with `response` unchanged if the chain is empty.
    pub fn begin_response(&self, response: Response<B>) -> (step: ResponseStep<'_, B, H>)
        ensures
            step == self.response_first(response),
    {
        if self.handlers.len() == 0 {
            ResponseStep::Done(Ok(response))
        } else {
            ResponseStep::Call { index: 0, handler: &*self.handlers[0], response }
        }
    }

    /// Continues the response phase with the `answer` of the handler at
    /// `index`.
    pub fn resume_response(
        &self,
        index: usize,
        answer: ResponseOutcome<B>,
    ) -> (step: ResponseStep<'_, B, H>)
        ensures
            step == self.response_next(index, answer),
    {
        match answer {
            Ok(next) => {
                let n = self.handlers.len();
                if index < n && index + 1 < n {
                    ResponseStep::Call {
                        index: index + 1,
                        handler: &*self.handlers[index + 1],
                        response: next,
                    }
                } else {
                    ResponseStep::Done(Ok(next))
                }
            },
            Err(error) => ResponseStep::Done(Err(error)),
        }
    }
}

impl<B, H: ?Sized> Clone for Chain<B, H> {
    /// Another handle on the same handler sequence. Nothing is copied but a
    /// pointer.
    fn clone(&self) -> (copy: Self)
        ensures
            copy@ == self@,
    {
        Chain { handlers: share(&self.handlers), body: Ghost(arbitrary()) }
    }
}

/// The record of a request phase: `calls[i]` is the request that the handler
/// at position `i` was given, with what it answered.
pub type RequestCalls<B> = Seq<(Request<B>, RequestOutcome<B>)>;

/// The record of a response phase: `calls[i]` is the response that the
/// handler at position `i` was given, with what it answered.
pub type ResponseCalls<B> = Seq<(Response<B>, ResponseOutcome<B>)>;

/// `calls` records the beginning of a request phase of `handlers` on
/// `request`: handlers are consulted in order from the first, each one once,
/// and each is given what the one before it passed on.
pub open spec fn request_calls_begun<B, H: HttpHandler<B> + ?Sized>(
    handlers: Seq<Arc<H>>,
    request: Request<B>,
    calls: RequestCalls<B>,
) -> bool {
    // One call at most for each handler, from the first handler on.
    &&& calls.len() <= handlers.len()
    // Call `i` is a call of the handler at position `i`.
    &&& forall|i: int|
        0 <= i < calls.len()
            ==> request_answer(&*handlers[i], (#[trigger] calls[i]).0, calls[i].1)
    // The first handler is given the input of the phase.
    &&& calls.len() > 0 ==> calls[0].0 == request
    // Every other handler is given what the one before it passed on.
    &&& forall|i: int|
        0 < i < calls.len()
            ==> calls[i - 1].1
                == RequestOutcome::<B>::Ok(HttpResult::Request((#[trigger] calls[i]).0))
}

/// `calls` records a whole request phase of `handlers` on `request`: it
/// stops before the last handler only where the last answer recorded is a
/// response or a failure.
pub open spec fn request_calls<B, H: HttpHandler<B> + ?Sized>(
    handlers: Seq<Arc<H>>,
    request: Request<B>,
    calls: RequestCalls<B>,
) -> bool {
    &&& request_calls_begun(handlers, request, calls)
    &&& calls.len() < handlers.len()
        ==> calls.len() > 0 && !(calls.last().1 matches Ok(HttpResult::Request(_)))
}

/// Outcome of the request phase recorded by `calls`: the last answer, or
/// `request` itself where no handler was consulted.
pub open spec fn request_result<B>(
    request: Request<B>,
    calls: RequestCalls<B>,
) -> RequestOutcome<B> {
    if calls.len() == 0 {
        Ok(HttpResult::Request(request))
    } else {
        calls.last().1
    }
}

/// `calls` records the beginning of a response phase of `handlers` on
/// `response`: handlers are consulted in order from the first, each one once,
/// and each is given what the one before it returned.
pub open spec fn response_calls_begun<B, H: HttpHandler<B> + ?Sized>(
    handlers: Seq<Arc<H>>,
    response: Response<B>,
    calls: ResponseCalls<B>,
) -> bool {
    // One call at most for each handler, from the first handler on.
    &&& calls.len() <= handlers.len()
    // Call `i` is a call of the handler at position `i`.
    &&& forall|i: int|
        0 <= i < calls.len()
            ==> response_answer(&*handlers[i], (#[trigger] calls[i]).0, calls[i].1)
    // The first handler is given the input of the phase.
    &&& calls.len() > 0 ==> calls[0].0 == response
    // Every other handler is given what the one before it returned.
    &&& forall|i: int|
        0 < i < calls.len()
            ==> calls[i - 1].1 == ResponseOutcome::<B>::Ok((#[trigger] calls[i]).0)
}

/// `calls` records a whole response phase of `handlers` on `response`: it
/// stops before the last handler only where the last answer recorded is a
/// failure.
pub open spec fn response_calls<B, H: HttpHandler<B> + ?Sized>(
    handlers: Seq<Arc<H>>,
    response: Response<B>,
    calls: ResponseCalls<B>,
) -> bool {
    &&& response_calls_begun(handlers, response, calls)
    &&& calls.len() < handlers.len() ==> calls.len() > 0 && calls.last().1 is Err
}

/// Outcome of the response phase recorded by `calls`: the last answer, or
/// `response` itself where no handler was consulted.
pub open spec fn response_result<B>(
    response: Response<B>,
    calls: ResponseCalls<B>,
) -> ResponseOutcome<B> {
    if calls.len() == 0 {
        Ok(response)
    } else {
        calls.last().1
    }
}

impl<B, H: HttpHandler<B> + ?Sized> Chain<B, H> {
    /// `outcome` is what some request phase of this chain on `request` ends
    /// with.
    pub open spec fn request_phase(&self, request: Request<B>, outcome: RequestOutcome<B>) -> bool {
        exists|calls: RequestCalls<B>|
            #[trigger] request_calls(self@, request, calls)
                && outcome == request_result(request, calls)
    }

    /// `outcome` is what some response phase of this chain on `response`
    /// ends with.
    pub open spec fn response_phase(
        &self,
        response: Response<B>,
        outcome: ResponseOutcome<B>,
    ) -> bool {
        exists|calls: ResponseCalls<B>|
            #[trigger] response_calls(self@, response, calls)
                && outcome == response_result(response, calls)
    }

    /// Where the request phase on `request` stands once the calls recorded
    /// in `calls` have been made and answered: `step` is the step that
    /// follows the last answer.
    pub open spec fn request_progress(
        &self,
        request: Request<B>,
        calls: RequestCalls<B>,
        step: RequestStep<'_, B, H>,
    ) -> bool {
        &&& request_calls_begun(self@, request, calls)
        &&& match step {
            RequestStep::Call { index, handler, request: current } => {
                &&& index == calls.len()
                &&& index < self@.len()
                &&& handler == &*self@[index as int]
                &&& calls.len() == 0 ==> current == request
                &&& calls.len() > 0
                    ==> calls.last().1 == RequestOutcome::<B>::Ok(HttpResult::Request(current))
            },
            RequestStep::Done(outcome) => {
                &&& request_calls(self@, request, calls)
                &&& outcome == request_result(request, calls)
            },
        }
    }

    /// Where the response phase on `response` stands once the calls
    /// recorded in `calls` have been made and answered: `step` is the step
    /// that follows the last answer.
    pub open spec fn response_progress(
        &self,
        response: Response<B>,
        calls: ResponseCalls<B>,
        step: ResponseStep<'_, B, H>,
    ) -> bool {
        &&& response_calls_begun(self@, response, calls)
        &&& match step {
            ResponseStep::Call { index, handler, response: current } => {
                &&& index == calls.len()
                &&& index < self@.len()
                &&& handler == &*self@[index as int]
                &&& calls.len() == 0 ==> current == response
                &&& calls.len() > 0 ==> calls.last().1 == ResponseOutcome::<B>::Ok(current)
            },
            ResponseStep::Done(outcome) => {
                &&& response_calls(self@, response, calls)
                &&& outcome == response_result(response, calls)
            },
        }
    }

    /// The first step of a request phase follows an empty record.
    pub proof fn lemma_request_begins(&self, request: Request<B>)
        ensures
            self.request_progress(request, Seq::empty(), self.request_first(request)),
    {
    }

    /// Whoever makes the call that a step names, and takes the step that
    /// follows the answer, extends the record by that call.
    pub proof fn lemma_request_advances(
        &self,
        request: Request<B>,
        calls: RequestCalls<B>,
        index: usize,
        handler: &H,
        current: Request<B>,
        answer: RequestOutcome<B>,
    )
        requires
            self@.len() <= usize::MAX,
            self.request_progress(
                request,
                calls,
                (RequestStep::Call { index, handler, request: current }),
            ),
            request_answer(handler, current, answer),
        ensures
            self.request_progress(
                request,
                calls.push((current, answer)),
                self.request_next(index, answer),
            ),
    {
    }

    /// A driver that has reached the end of the steps has run a request
    /// phase, and holds its outcome.
    pub proof fn lemma_request_ends(
        &self,
        request: Request<B>,
        calls: RequestCalls<B>,
        outcome: RequestOutcome<B>,
    )
        requires
            self.request_progress(request, calls, RequestStep::Done(outcome)),
        ensures
            self.request_phase(request, outcome),
    {
    }

    /// The first step of a response phase follows an empty record.
    pub proof fn lemma_response_begins(&self, response: Response<B>)
        ensures
            self.response_progress(response, Seq::empty(), self.response_first(response)),
    {
    }

    /// Whoever makes the call that a step names, and takes the step that
    /// follows the answer, extends the record by that call.
    pub proof fn lemma_response_advances(
        &self,
        response: Response<B>,
        calls: ResponseCalls<B>,
        index: usize,
        handler: &H,
        current: Response<B>,
        answer: ResponseOutcome<B>,
    )
        requires
            self@.len() <= usize::MAX,
            self.response_progress(
                response,
                calls,
                (ResponseStep::Call { index, handler, response: current }),
            ),
            response_answer(handler, current, answer),
        ensures
            self.response_progress(
                response,
                calls.push((current, answer)),
                self.response_next(index, answer),
            ),
    {
    }

    /// A driver that has reached the end of the steps has run a response
    /// phase, and holds its outcome.
    pub proof fn lemma_response_ends(
        &self,
        response: Response<B>,
        calls: ResponseCalls<B>,
        outcome: ResponseOutcome<B>,
    )
        requires
            self.response_progress(response, calls, ResponseStep::Done(outcome)),
        ensures
            self.response_phase(response, outcome),
    {
    }

    /// Runs the request phase on `request`.
    ///
    /// Handlers are consulted in construction order. Each is given what the
    /// one before it passed on. The first response ends the phase and is its
    /// result; the first failure ends it and is its error. If every handler
    /// passes a request on, the last one passed is the result.
    pub fn process_request(&self, request: Request<B>) -> (outcome: RequestOutcome<B>)
        ensures
            self.request_phase(request, outcome),
            self@.len() == 0 ==> outcome == RequestOutcome::<B>::Ok(HttpResult::Request(request)),
    {
        let ghost mut calls: RequestCalls<B> = Seq::empty();
        let count = self.len();
        let mut step = self.begin_request(request);
        proof {
            self.lemma_request_begins(request);
        }
        loop
            invariant
                count == self@.len(),
                self.request_progress(request, calls, step),
            decreases self@.len() - calls.len(),
        {
            match step {
                RequestStep::Done(outcome) => {
                    proof {
                        self.lemma_request_ends(request, calls, outcome);
                    }
                    return outcome;
                },
                RequestStep::Call { index, handler, request: current } => {
                    let answer = handler.handle_request(current);
                    proof {
                        self.lemma_request_advances(request, calls, index, handler, current, answer);
                        calls = calls.push((current, answer));
                    }
                    step = self.resume_request(index, answer);
                },
            }
        }
    }

    /// Runs the response phase on `response`.
    ///
    /// Every handler is consulted, in construction order, whatever the
    /// request phase did. Each is given what the one before it returned.
    /// The first failure ends the phase and is its error.
    pub fn process_response(&self, response: Response<B>) -> (outcome: ResponseOutcome<B>)
        ensures
            self.response_phase(response, outcome),
            self@.len() == 0 ==> outcome == ResponseOutcome::<B>::Ok(response),
    {
        let ghost mut calls: ResponseCalls<B> = Seq::empty();
        let count = self.len();
        let mut step = self.begin_response(response);
        proof {
            self.lemma_response_begins(response);
        }
        loop
            invariant
                count == self@.len(),
                self.response_progress(response, calls, step),
            decreases self@.len() - calls.len(),
        {
            match step {
                ResponseStep::Done(outcome) => {
                    proof {
                        self.lemma_response_ends(response, calls, outcome);
                    }
                    return outcome;
                },
                ResponseStep::Call { index, handler, response: current } => {
                    let answer = handler.handle_response(current);
                    proof {
                        self.lemma_response_advances(
                            response,
                            calls,
                            index,
                            handler,
                            current,
                            answer,
                        );
                        calls = calls.push((current, answer));
                    }
                    step = self.resume_response(index, answer);
                },
            }
        }
    }
}

} // verus!
