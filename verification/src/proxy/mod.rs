//! Messages, the handler capability, and the chain that sequences handlers.

use http::{Request, Response};
use std::fmt::Error;
use vstd::prelude::*;

pub mod adapter;
pub mod chain;
pub mod handlers;
pub mod laws;

verus! {

/// `http::Request`, carried through the chain untouched. Nothing is assumed
/// of what a request holds.
#[verifier::external_type_specification]
#[verifier::external_body]
#[verifier::reject_recursive_types(T)]
pub struct ExRequest<T>(http::Request<T>);

/// `http::Response`, carried through the chain untouched. Nothing is assumed
/// of what a response holds.
#[verifier::external_type_specification]
#[verifier::external_body]
#[verifier::reject_recursive_types(T)]
pub struct ExResponse<T>(http::Response<T>);

/// `std::fmt::Error`, the one opaque error a handler can fail with. Nothing
/// is assumed of it.
#[verifier::external_type_specification]
#[verifier::external_body]
pub struct ExError(std::fmt::Error);

/// `http::Response::new`: a blank response (status 200, no headers) around
/// `body`. The contract claims nothing of the result; [`adapter::blank`]
/// speaks of it as what this call returns for `body`.
pub assume_specification<T>[ http::Response::<T>::new ](body: T) -> (response: http::Response<T>);

/// What the request phase produces: either a request that goes on towards
/// the origin, or a response that ends the request phase at once.
#[derive(Debug)]
#[verifier::reject_recursive_types(B)]
pub enum HttpResult<B> {
    /// HTTP request: the chain continues with it.
    Request(Request<B>),
    /// HTTP response: the request phase stops here.
    Response(Response<B>),
}

/// Result of a request-phase operation, of one handler or of a whole chain.
pub type RequestOutcome<B> = Result<HttpResult<B>, Error>;

/// Result of a response-phase operation, of one handler or of a whole chain.
pub type ResponseOutcome<B> = Result<Response<B>, Error>;

/// The capability every pluggable handler offers: one operation for the
/// request phase and one for the response phase, both over one body type `B`.
///
/// The trait promises nothing about what an implementation returns. An
/// implementation states its own guarantees as `ensures` on its methods; the
/// chain's contracts refer to them through [`request_answer`] and
/// [`response_answer`].
///
/// A handler is shared by all transactions in flight, on whatever thread
/// they run: it is `Send + Sync`, and both operations take `&self`. One that
/// keeps state synchronises it internally; the chain locks nothing.
pub trait HttpHandler<B>: Send + Sync + 'static {
    /// Inspects a request. Returns it, possibly changed, to let the chain go
    /// on, or a response to end the request phase, or an error.
    fn handle_request(&self, request: Request<B>) -> RequestOutcome<B>;

    /// Inspects a response and returns it, possibly changed, or an error.
    fn handle_response(&self, response: Response<B>) -> ResponseOutcome<B>;
}

/// Whether `answer` is something `handler`'s request-phase operation can
/// return for `request`, as far as its own contract tells.
pub open spec fn request_answer<B, H: HttpHandler<B> + ?Sized>(
    handler: &H,
    request: Request<B>,
    answer: RequestOutcome<B>,
) -> bool {
    call_ensures(H::handle_request, (handler, request), answer)
}

/// Whether `answer` is something `handler`'s response-phase operation can
/// return for `response`, as far as its own contract tells.
pub open spec fn response_answer<B, H: HttpHandler<B> + ?Sized>(
    handler: &H,
    response: Response<B>,
    answer: ResponseOutcome<B>,
) -> bool {
    call_ensures(H::handle_response, (handler, response), answer)
}

} // verus!
