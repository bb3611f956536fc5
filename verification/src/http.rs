//! The request and response abstractions the router works on.
//!
//! The transport collaborator parses wire bytes into an [`HttpRequest`] view
//! and serializes an [`HttpResponse`] back out; the router itself only ever
//! sees these plain values.

use vstd::prelude::*;

verus! {

/// An HTTP method. The set is closed: no custom verbs.
#[derive(Clone, Copy, Debug, PartialEq, Eq, Structural)]
pub enum Verb {
    Get,
    Put,
    Post,
    Delete,
    Patch,
    Options,
    Head,
    Trace,
}

/// Status code of a successful response.
pub const STATUS_OK: u16 = 200;

/// Status code of the not-found response the server loop sends on a route
/// miss.
pub const STATUS_NOT_FOUND: u16 = 404;

/// Status code of the error response the server loop sends when a handler
/// fails internally.
pub const STATUS_INTERNAL_ERROR: u16 = 500;

/// One inbound request as the router sees it: the transport collaborator has
/// already parsed the wire bytes into a verb, an exact path, and a body.
pub struct HttpRequest {
    pub verb: Verb,
    pub path: String,
    pub body: Vec<u8>,
}

/// One outbound response as the router produces it: the transport
/// collaborator serializes the status and body onto the wire.
pub struct HttpResponse {
    pub status: u16,
    pub body: Vec<u8>,
}

impl HttpResponse {
    /// A success response carrying the given payload.
    pub fn new(body: Vec<u8>) -> (r: HttpResponse)
        ensures
            r.status == STATUS_OK,
            r.body@ == body@,
    {
        HttpResponse { status: STATUS_OK, body }
    }

    /// The defined not-found response: what a route miss turns into.
    pub fn not_found() -> (r: HttpResponse)
        ensures
            r.status == STATUS_NOT_FOUND,
            r.body@ == Seq::<u8>::empty(),
    {
        HttpResponse { status: STATUS_NOT_FOUND, body: Vec::new() }
    }

    /// The defined error response: what an internal handler fault turns into.
    pub fn internal_error() -> (r: HttpResponse)
        ensures
            r.status == STATUS_INTERNAL_ERROR,
            r.body@ == Seq::<u8>::empty(),
    {
        HttpResponse { status: STATUS_INTERNAL_ERROR, body: Vec::new() }
    }
}

/// What the server loop observed for one request: the handler completed with
/// a response, no route matched, or the invoked handler failed internally.
pub enum Dispatch {
    Handled(HttpResponse),
    RouteMiss,
    HandlerFault,
}

/// Turn a dispatch outcome into the response that goes on the wire. Every
/// outcome maps to a well-formed response: a route miss becomes the defined
/// not-found response and a handler fault becomes the defined error response
/// for that request alone; neither is ever a fatal fault.
pub fn wire_response(d: Dispatch) -> (r: HttpResponse)
    ensures
        match d {
            Dispatch::Handled(resp) => r.status == resp.status && r.body@ == resp.body@,
            Dispatch::RouteMiss => r.status == STATUS_NOT_FOUND && r.body@ == Seq::<u8>::empty(),
            Dispatch::HandlerFault => r.status == STATUS_INTERNAL_ERROR && r.body@ == Seq::<
                u8,
            >::empty(),
        },
{
    match d {
        Dispatch::Handled(resp) => resp,
        Dispatch::RouteMiss => HttpResponse::not_found(),
        Dispatch::HandlerFault => HttpResponse::internal_error(),
    }
}

/// The template project's handler: echo the request body back as the body of
/// a success response.
pub fn echo(req: HttpRequest) -> (r: HttpResponse)
    ensures
        r.status == STATUS_OK,
        r.body@ == req.body@,
{
    HttpResponse::new(req.body)
}

} // verus!
