use min::{Dispatch, HttpRequest, HttpResponse, Router, Verb};

type Handler = fn(HttpRequest) -> HttpResponse;

fn static_one(_req: HttpRequest) -> HttpResponse {
    HttpResponse::new(b"one".to_vec())
}

fn static_two(_req: HttpRequest) -> HttpResponse {
    HttpResponse::new(b"two".to_vec())
}

#[test]
fn response_new_is_success() {
    let r = HttpResponse::new(b"payload".to_vec());
    assert_eq!(r.status, 200);
    assert_eq!(r.body, b"payload".to_vec());
}

#[test]
fn not_found_response_is_404_and_empty() {
    let r = HttpResponse::not_found();
    assert_eq!(r.status, 404);
    assert!(r.body.is_empty());
}

#[test]
fn internal_error_response_is_500_and_empty() {
    let r = HttpResponse::internal_error();
    assert_eq!(r.status, 500);
    assert!(r.body.is_empty());
}

#[test]
fn echo_returns_the_request_body() {
    let resp = min::echo(HttpRequest {
        verb: Verb::Post,
        path: String::from("/echo"),
        body: b"hello".to_vec(),
    });
    assert_eq!(resp.status, 200);
    assert_eq!(resp.body, b"hello".to_vec());
}

#[test]
fn wire_response_passes_a_handled_response_through() {
    let r = min::wire_response(Dispatch::Handled(HttpResponse {
        status: 201,
        body: b"made".to_vec(),
    }));
    assert_eq!(r.status, 201);
    assert_eq!(r.body, b"made".to_vec());
}

#[test]
fn wire_response_turns_a_route_miss_into_not_found() {
    let r = min::wire_response(Dispatch::RouteMiss);
    assert_eq!(r.status, 404);
    assert!(r.body.is_empty());
}

#[test]
fn wire_response_turns_a_handler_fault_into_an_error_response() {
    let r = min::wire_response(Dispatch::HandlerFault);
    assert_eq!(r.status, 500);
    assert!(r.body.is_empty());
}

#[test]
fn echo_end_to_end() {
    let table = Router::new().post("/echo", min::echo as Handler).seal();
    let req = HttpRequest {
        verb: Verb::Post,
        path: String::from("/echo"),
        body: b"hello".to_vec(),
    };
    let outcome = match table.resolve(req.verb, req.path.as_str()) {
        Some(&h) => Dispatch::Handled(h(req)),
        None => Dispatch::RouteMiss,
    };
    let resp = min::wire_response(outcome);
    assert_eq!(resp.status, 200);
    assert_eq!(resp.body, b"hello".to_vec());
}

#[test]
fn empty_table_end_to_end_yields_not_found() {
    let table = Router::<Handler>::new().seal();
    let req = HttpRequest {
        verb: Verb::Get,
        path: String::from("/"),
        body: Vec::new(),
    };
    let outcome = match table.resolve(req.verb, req.path.as_str()) {
        Some(&h) => Dispatch::Handled(h(req)),
        None => Dispatch::RouteMiss,
    };
    let resp = min::wire_response(outcome);
    assert_eq!(resp.status, 404);
}

#[test]
fn re_registered_route_end_to_end_uses_the_second_handler() {
    let table = Router::new()
        .post("/echo", static_one as Handler)
        .post("/echo", static_two as Handler)
        .seal();
    let req = HttpRequest {
        verb: Verb::Post,
        path: String::from("/echo"),
        body: Vec::new(),
    };
    let outcome = match table.resolve(req.verb, req.path.as_str()) {
        Some(&h) => Dispatch::Handled(h(req)),
        None => Dispatch::RouteMiss,
    };
    let resp = min::wire_response(outcome);
    assert_eq!(resp.status, 200);
    assert_eq!(resp.body, b"two".to_vec());
}
