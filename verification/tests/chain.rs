use http::{Method, Request, Response, StatusCode};
use proxy_chain::proxy::chain::{Chain, RequestStep, ResponseStep};
use proxy_chain::proxy::handlers::log::LogHandler;
use proxy_chain::proxy::{HttpHandler, HttpResult};
use std::fmt::Error;
use std::sync::atomic::{AtomicUsize, Ordering};
use std::sync::{Arc, Mutex};

type Journal = Arc<Mutex<Vec<String>>>;

/// What a test handler does in the request phase.
enum OnRequest {
    Pass,
    Append(&'static str),
    Respond(u16, &'static str),
    Fail,
}

/// What a test handler does in the response phase.
enum OnResponse {
    Pass,
    Append(&'static str),
    Fail,
}

/// A handler that writes every call into a shared journal and then does as
/// it was told.
struct Scripted {
    name: &'static str,
    journal: Journal,
    on_request: OnRequest,
    on_response: OnResponse,
}

impl HttpHandler<String> for Scripted {
    fn handle_request(&self, mut request: Request<String>) -> Result<HttpResult<String>, Error> {
        self.journal.lock().unwrap().push(format!("{}:request:{}", self.name, request.body()));
        match self.on_request {
            OnRequest::Pass => Ok(HttpResult::Request(request)),
            OnRequest::Append(tag) => {
                request.body_mut().push_str(tag);
                Ok(HttpResult::Request(request))
            }
            OnRequest::Respond(status, body) => Ok(HttpResult::Response(
                Response::builder().status(status).body(body.to_string()).unwrap(),
            )),
            OnRequest::Fail => Err(Error),
        }
    }

    fn handle_response(&self, mut response: Response<String>) -> Result<Response<String>, Error> {
        self.journal.lock().unwrap().push(format!("{}:response:{}", self.name, response.body()));
        match self.on_response {
            OnResponse::Pass => Ok(response),
            OnResponse::Append(tag) => {
                response.body_mut().push_str(tag);
                Ok(response)
            }
            OnResponse::Fail => Err(Error),
        }
    }
}

/// A handler that counts its calls and changes nothing.
struct Counting {
    requests: AtomicUsize,
    responses: AtomicUsize,
}

impl HttpHandler<String> for Counting {
    fn handle_request(&self, request: Request<String>) -> Result<HttpResult<String>, Error> {
        self.requests.fetch_add(1, Ordering::SeqCst);
        Ok(HttpResult::Request(request))
    }

    fn handle_response(&self, response: Response<String>) -> Result<Response<String>, Error> {
        self.responses.fetch_add(1, Ordering::SeqCst);
        Ok(response)
    }
}

fn scripted(
    name: &'static str,
    journal: &Journal,
    on_request: OnRequest,
    on_response: OnResponse,
) -> Arc<dyn HttpHandler<String>> {
    Arc::new(Scripted { name, journal: Arc::clone(journal), on_request, on_response })
}

fn get(uri: &str, body: &str) -> Request<String> {
    Request::builder().method(Method::GET).uri(uri).body(body.to_string()).unwrap()
}

fn entries(journal: &Journal) -> Vec<String> {
    journal.lock().unwrap().clone()
}

fn expect_request(outcome: Result<HttpResult<String>, Error>) -> Request<String> {
    match outcome {
        Ok(HttpResult::Request(request)) => request,
        other => panic!("expected a request, got {:?}", other),
    }
}

fn expect_response(outcome: Result<HttpResult<String>, Error>) -> Response<String> {
    match outcome {
        Ok(HttpResult::Response(response)) => response,
        other => panic!("expected a response, got {:?}", other),
    }
}

#[test]
fn empty_chain_returns_the_request_unchanged() {
    let chain: Chain<String, dyn HttpHandler<String>> = Chain::new(Vec::new());
    assert_eq!(chain.len(), 0);
    let mut request = get("/items?page=2", "payload");
    request.headers_mut().insert("x-trace", "7".parse().unwrap());
    let request = expect_request(chain.process_request(request));
    assert_eq!(request.method(), Method::GET);
    assert_eq!(request.uri(), "/items?page=2");
    assert_eq!(request.headers().get("x-trace").unwrap(), "7");
    assert_eq!(request.body(), "payload");
}

#[test]
fn empty_chain_returns_the_response_unchanged() {
    let chain: Chain<String, dyn HttpHandler<String>> = Chain::new(Vec::new());
    let response = Response::builder()
        .status(StatusCode::NOT_FOUND)
        .header("x-trace", "7")
        .body("missing".to_string())
        .unwrap();
    let response = chain.process_response(response).unwrap();
    assert_eq!(response.status(), StatusCode::NOT_FOUND);
    assert_eq!(response.headers().get("x-trace").unwrap(), "7");
    assert_eq!(response.body(), "missing");
}

#[test]
fn pass_through_handlers_return_the_request_unchanged() {
    let journal = Journal::default();
    let chain = Chain::new(vec![
        scripted("a", &journal, OnRequest::Pass, OnResponse::Pass),
        scripted("b", &journal, OnRequest::Pass, OnResponse::Pass),
        scripted("c", &journal, OnRequest::Pass, OnResponse::Pass),
    ]);
    assert_eq!(chain.len(), 3);
    let request = expect_request(chain.process_request(get("/x", "body")));
    assert_eq!(request.method(), Method::GET);
    assert_eq!(request.uri(), "/x");
    assert_eq!(request.body(), "body");
    assert_eq!(entries(&journal), vec!["a:request:body", "b:request:body", "c:request:body"]);
}

#[test]
fn log_handlers_change_nothing() {
    let chain: Chain<String, LogHandler<String>> =
        Chain::new(vec![Arc::new(LogHandler::new()), Arc::new(LogHandler::new())]);
    let request = expect_request(chain.process_request(get("/log", "in")));
    assert_eq!(request.uri(), "/log");
    assert_eq!(request.body(), "in");
    let response = Response::builder().status(201).body("out".to_string()).unwrap();
    let response = chain.process_response(response).unwrap();
    assert_eq!(response.status(), StatusCode::CREATED);
    assert_eq!(response.body(), "out");
}

#[test]
fn log_handler_passes_a_request_on() {
    let handler: LogHandler<String> = LogHandler::new();
    let request = expect_request(handler.handle_request(get("/one", "r")));
    assert_eq!(request.uri(), "/one");
    assert_eq!(request.body(), "r");
    let response = handler.handle_response(Response::new("s".to_string())).unwrap();
    assert_eq!(response.status(), StatusCode::OK);
    assert_eq!(response.body(), "s");
}

#[test]
fn each_handler_sees_what_the_one_before_passed_on() {
    let journal = Journal::default();
    let chain = Chain::new(vec![
        scripted("a", &journal, OnRequest::Append("1"), OnResponse::Pass),
        scripted("b", &journal, OnRequest::Append("2"), OnResponse::Pass),
        scripted("c", &journal, OnRequest::Append("3"), OnResponse::Pass),
    ]);
    let request = expect_request(chain.process_request(get("/", "")));
    assert_eq!(request.body(), "123");
    assert_eq!(entries(&journal), vec!["a:request:", "b:request:1", "c:request:12"]);
}

#[test]
fn short_circuit_stops_the_request_phase() {
    let journal = Journal::default();
    let chain = Chain::new(vec![
        scripted("a", &journal, OnRequest::Append("1"), OnResponse::Pass),
        scripted("b", &journal, OnRequest::Respond(403, "denied"), OnResponse::Pass),
        scripted("c", &journal, OnRequest::Append("3"), OnResponse::Pass),
        scripted("d", &journal, OnRequest::Fail, OnResponse::Pass),
    ]);
    let response = expect_response(chain.process_request(get("/", "")));
    assert_eq!(response.status(), StatusCode::FORBIDDEN);
    assert_eq!(response.body(), "denied");
    assert_eq!(entries(&journal), vec!["a:request:", "b:request:1"]);
}

#[test]
fn short_circuit_at_every_position_of_every_length() {
    for n in 1..6usize {
        for k in 0..n {
            let journal = Journal::default();
            let mut handlers = Vec::new();
            for i in 0..n {
                let on_request =
                    if i == k { OnRequest::Respond(418, "stop") } else { OnRequest::Pass };
                handlers.push(scripted("h", &journal, on_request, OnResponse::Pass));
            }
            let chain = Chain::new(handlers);
            let response = expect_response(chain.process_request(get("/", "")));
            assert_eq!(response.status(), StatusCode::IM_A_TEAPOT);
            assert_eq!(response.body(), "stop");
            assert_eq!(entries(&journal).len(), k + 1);
        }
    }
}

#[test]
fn response_phase_visits_every_handler_after_a_short_circuit() {
    let journal = Journal::default();
    let chain = Chain::new(vec![
        scripted("a", &journal, OnRequest::Pass, OnResponse::Append("a")),
        scripted("b", &journal, OnRequest::Respond(200, ""), OnResponse::Append("b")),
        scripted("c", &journal, OnRequest::Pass, OnResponse::Append("c")),
    ]);
    let response = expect_response(chain.process_request(get("/", "")));
    let response = chain.process_response(response).unwrap();
    assert_eq!(response.body(), "abc");
    assert_eq!(
        entries(&journal),
        vec!["a:request:", "b:request:", "a:response:", "b:response:a", "c:response:ab"]
    );
}

#[test]
fn response_phase_visits_every_handler_once_in_order() {
    let journal = Journal::default();
    let chain = Chain::new(vec![
        scripted("a", &journal, OnRequest::Pass, OnResponse::Pass),
        scripted("b", &journal, OnRequest::Pass, OnResponse::Pass),
        scripted("c", &journal, OnRequest::Pass, OnResponse::Pass),
        scripted("d", &journal, OnRequest::Pass, OnResponse::Pass),
    ]);
    let response = chain.process_response(Response::new("r".to_string())).unwrap();
    assert_eq!(response.body(), "r");
    assert_eq!(
        entries(&journal),
        vec!["a:response:r", "b:response:r", "c:response:r", "d:response:r"]
    );
}

#[test]
fn tags_are_appended_in_construction_order() {
    let journal = Journal::default();
    let chain = Chain::new(vec![
        scripted("A", &journal, OnRequest::Pass, OnResponse::Append("a")),
        scripted("B", &journal, OnRequest::Pass, OnResponse::Append("b")),
    ]);
    let request = expect_request(chain.process_request(get("/", "")));
    assert_eq!(request.body(), "");
    let response = chain.process_response(Response::new(String::new())).unwrap();
    assert_eq!(response.body(), "ab");
    assert_ne!(response.body(), "ba");
}

#[test]
fn request_failure_ends_the_phase_with_the_error() {
    let journal = Journal::default();
    let chain = Chain::new(vec![
        scripted("a", &journal, OnRequest::Pass, OnResponse::Pass),
        scripted("b", &journal, OnRequest::Fail, OnResponse::Pass),
        scripted("c", &journal, OnRequest::Respond(200, "late"), OnResponse::Pass),
    ]);
    let outcome = chain.process_request(get("/", "q"));
    assert!(matches!(outcome, Err(Error)));
    assert_eq!(entries(&journal), vec!["a:request:q", "b:request:q"]);
}

#[test]
fn response_failure_ends_the_phase_with_the_error() {
    let journal = Journal::default();
    let chain = Chain::new(vec![
        scripted("a", &journal, OnRequest::Pass, OnResponse::Append("a")),
        scripted("b", &journal, OnRequest::Pass, OnResponse::Fail),
        scripted("c", &journal, OnRequest::Pass, OnResponse::Append("c")),
    ]);
    let outcome = chain.process_response(Response::new(String::new()));
    assert!(matches!(outcome, Err(Error)));
    assert_eq!(entries(&journal), vec!["a:response:", "b:response:a"]);
}

#[test]
fn request_steps_name_the_handlers_in_turn() {
    let journal = Journal::default();
    let chain = Chain::new(vec![
        scripted("a", &journal, OnRequest::Append("1"), OnResponse::Pass),
        scripted("b", &journal, OnRequest::Append("2"), OnResponse::Pass),
    ]);
    let (index, answer) = match chain.begin_request(get("/", "")) {
        RequestStep::Call { index, handler, request } => (index, handler.handle_request(request)),
        RequestStep::Done(_) => panic!("a chain of two handlers starts with a call"),
    };
    assert_eq!(index, 0);
    let (index, answer) = match chain.resume_request(index, answer) {
        RequestStep::Call { index, handler, request } => (index, handler.handle_request(request)),
        RequestStep::Done(_) => panic!("the second handler is still to be called"),
    };
    assert_eq!(index, 1);
    match chain.resume_request(index, answer) {
        RequestStep::Done(outcome) => assert_eq!(expect_request(outcome).body(), "12"),
        RequestStep::Call { .. } => panic!("no handler is left"),
    }
    assert_eq!(entries(&journal), vec!["a:request:", "b:request:1"]);
}

#[test]
fn request_steps_end_on_a_response_or_a_failure() {
    let journal = Journal::default();
    let chain = Chain::new(vec![
        scripted("a", &journal, OnRequest::Pass, OnResponse::Pass),
        scripted("b", &journal, OnRequest::Pass, OnResponse::Pass),
        scripted("c", &journal, OnRequest::Pass, OnResponse::Pass),
    ]);
    let stop = Ok(HttpResult::Response(Response::new("stop".to_string())));
    match chain.resume_request(0, stop) {
        RequestStep::Done(outcome) => assert_eq!(expect_response(outcome).body(), "stop"),
        RequestStep::Call { .. } => panic!("a response ends the phase"),
    }
    assert!(matches!(chain.resume_request(1, Err(Error)), RequestStep::Done(Err(Error))));
    assert!(entries(&journal).is_empty());
}

#[test]
fn request_steps_end_after_the_last_handler() {
    let journal = Journal::default();
    let chain = Chain::new(vec![
        scripted("a", &journal, OnRequest::Pass, OnResponse::Pass),
        scripted("b", &journal, OnRequest::Pass, OnResponse::Pass),
    ]);
    for index in [1usize, 2, 7, usize::MAX] {
        match chain.resume_request(index, Ok(HttpResult::Request(get("/", "kept")))) {
            RequestStep::Done(outcome) => assert_eq!(expect_request(outcome).body(), "kept"),
            RequestStep::Call { .. } => panic!("no handler follows position {}", index),
        }
    }
    let empty: Chain<String, dyn HttpHandler<String>> = Chain::new(Vec::new());
    assert!(matches!(empty.begin_request(get("/", "")), RequestStep::Done(Ok(_))));
}

#[test]
fn response_steps_name_the_handlers_in_turn() {
    let journal = Journal::default();
    let chain = Chain::new(vec![
        scripted("a", &journal, OnRequest::Pass, OnResponse::Append("a")),
        scripted("b", &journal, OnRequest::Pass, OnResponse::Append("b")),
    ]);
    let (index, answer) = match chain.begin_response(Response::new(String::new())) {
        ResponseStep::Call { index, handler, response } => {
            (index, handler.handle_response(response))
        }
        ResponseStep::Done(_) => panic!("a chain of two handlers starts with a call"),
    };
    assert_eq!(index, 0);
    let (index, answer) = match chain.resume_response(index, answer) {
        ResponseStep::Call { index, handler, response } => {
            (index, handler.handle_response(response))
        }
        ResponseStep::Done(_) => panic!("the second handler is still to be called"),
    };
    assert_eq!(index, 1);
    match chain.resume_response(index, answer) {
        ResponseStep::Done(outcome) => assert_eq!(outcome.unwrap().body(), "ab"),
        ResponseStep::Call { .. } => panic!("no handler is left"),
    }
}

#[test]
fn response_steps_end_on_a_failure_or_after_the_last_handler() {
    let journal = Journal::default();
    let chain = Chain::new(vec![
        scripted("a", &journal, OnRequest::Pass, OnResponse::Pass),
        scripted("b", &journal, OnRequest::Pass, OnResponse::Pass),
    ]);
    assert!(matches!(chain.resume_response(0, Err(Error)), ResponseStep::Done(Err(Error))));
    for index in [1usize, 2, usize::MAX] {
        match chain.resume_response(index, Ok(Response::new("kept".to_string()))) {
            ResponseStep::Done(outcome) => assert_eq!(outcome.unwrap().body(), "kept"),
            ResponseStep::Call { .. } => panic!("no handler follows position {}", index),
        }
    }
    let empty: Chain<String, dyn HttpHandler<String>> = Chain::new(Vec::new());
    assert!(matches!(empty.begin_response(Response::new(String::new())), ResponseStep::Done(Ok(_))));
}

#[test]
fn a_copy_of_a_chain_shares_its_handlers() {
    let counter = Arc::new(Counting { requests: AtomicUsize::new(0), responses: AtomicUsize::new(0) });
    let chain: Chain<String, Counting> = Chain::new(vec![Arc::clone(&counter), Arc::clone(&counter)]);
    let copy = chain.clone();
    assert_eq!(copy.len(), 2);
    expect_request(chain.process_request(get("/", "")));
    expect_request(copy.process_request(get("/", "")));
    copy.process_response(Response::new(String::new())).unwrap();
    assert_eq!(counter.requests.load(Ordering::SeqCst), 4);
    assert_eq!(counter.responses.load(Ordering::SeqCst), 2);
    // The two handles and this test hold the handler; no handler was copied.
    drop(copy);
    drop(chain);
    assert_eq!(Arc::strong_count(&counter), 1);
}

#[test]
fn concurrent_transactions_are_all_counted() {
    let counter = Arc::new(Counting { requests: AtomicUsize::new(0), responses: AtomicUsize::new(0) });
    let chain: Chain<String, Counting> = Chain::new(vec![Arc::clone(&counter)]);
    let transactions = 64;
    let runtime = tokio::runtime::Builder::new_multi_thread().worker_threads(4).build().unwrap();
    let mut running = Vec::new();
    for i in 0..transactions {
        let chain = chain.clone();
        running.push(runtime.spawn_blocking(move || {
            let body = format!("t{}", i);
            let request = expect_request(chain.process_request(get("/", &body)));
            assert_eq!(request.body(), &body);
            let response = chain.process_response(Response::new(body.clone())).unwrap();
            assert_eq!(response.body(), &body);
        }));
    }
    for transaction in running {
        runtime.block_on(transaction).unwrap();
    }
    assert_eq!(counter.requests.load(Ordering::SeqCst), transactions);
    assert_eq!(counter.responses.load(Ordering::SeqCst), transactions);
}
