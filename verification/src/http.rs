//! HTTP signaling surface of the WHEP endpoint: routing by method, CORS
//! reflection, and the mapping of session outcomes to responses. The I/O
//! layer parses a request into plain values, lets this module decide, and
//! writes the decided response back.
use vstd::prelude::*;

verus! {

/// Request method, as far as the signaling surface distinguishes them.
#[derive(Clone, Copy, PartialEq, Eq, Structural, Debug)]
pub enum Method {
    Post,
    Delete,
    Options,
    Other,
}

/// What the service does for a request, before any response is built.
#[derive(Clone, Copy, PartialEq, Eq, Structural, Debug)]
pub enum RouteAction {
    /// `POST /{path}`: create a session from the offer in the body.
    CreateSession,
    /// `DELETE /{path}`: tear the named session down.
    DeleteSession,
    /// `OPTIONS`: answer the CORS preflight.
    Preflight,
    /// Anything else: not found.
    NotFound,
}

/// The CORS-relevant request headers, each as received or absent.
pub struct CorsRequest {
    pub origin: Option<String>,
    pub request_method: Option<String>,
    pub request_headers: Option<String>,
}

/// A fully decided response: status, media type, CORS headers and body.
pub struct ResponsePlan {
    pub status: u16,
    /// Whether the response carries `Content-Type: application/sdp`.
    pub content_type_sdp: bool,
    /// Value for `Access-Control-Allow-Origin`, if the header is sent.
    pub allow_origin: Option<String>,
    /// Whether `Access-Control-Allow-Credentials: true` is sent.
    pub allow_credentials: bool,
    /// Value for `Access-Control-Allow-Methods`, if the header is sent.
    pub allow_methods: Option<String>,
    /// Value for `Access-Control-Allow-Headers`, if the header is sent.
    pub allow_headers: Option<String>,
    pub body: Option<String>,
}

/// Why session creation failed; each variant names the negotiation step that
/// rejected it.
#[derive(Clone, Copy, PartialEq, Eq, Structural, Debug)]
pub enum SessionError {
    /// The offer was rejected as a remote description.
    OfferRejected,
    /// The transport engine could not generate an answer.
    AnswerFailed,
    /// Candidate gathering finished but no local description was available.
    NoLocalDescription,
    /// A second offer/answer exchange was attempted on the same session.
    AlreadyNegotiated,
}

/// Status reported for each negotiation failure: a rejected offer is the
/// caller's fault, everything else is the server's.
pub open spec fn error_status_spec(e: SessionError) -> u16 {
    match e {
        SessionError::OfferRejected => 400u16,
        _ => 500u16,
    }
}

/// Descriptive body reported for each negotiation failure.
pub open spec fn error_message_spec(e: SessionError) -> Seq<char> {
    match e {
        SessionError::OfferRejected => "offer rejected as remote description"@,
        SessionError::AnswerFailed => "answer generation failed"@,
        SessionError::NoLocalDescription => "no local description after gathering"@,
        SessionError::AlreadyNegotiated => "session already negotiated"@,
    }
}

impl SessionError {
    /// The descriptive text sent to the HTTP caller for this failure.
    pub fn message(&self) -> (r: String)
        ensures
            r@ == error_message_spec(*self),
    {
        match self {
            SessionError::OfferRejected => "offer rejected as remote description".to_owned(),
            SessionError::AnswerFailed => "answer generation failed".to_owned(),
            SessionError::NoLocalDescription => "no local description after gathering".to_owned(),
            SessionError::AlreadyNegotiated => "session already negotiated".to_owned(),
        }
    }
}

/// Routes a request by method alone: `POST` creates, `DELETE` tears down,
/// `OPTIONS` is a preflight, everything else is not found.
pub fn route(m: Method) -> (r: RouteAction)
    ensures
        r == (match m {
            Method::Post => RouteAction::CreateSession,
            Method::Delete => RouteAction::DeleteSession,
            Method::Options => RouteAction::Preflight,
            Method::Other => RouteAction::NotFound,
        }),
{
    match m {
        Method::Post => RouteAction::CreateSession,
        Method::Delete => RouteAction::DeleteSession,
        Method::Options => RouteAction::Preflight,
        Method::Other => RouteAction::NotFound,
    }
}

/// The CORS reflection every response carries: the origin is reflected
/// verbatim into `Access-Control-Allow-Origin`, and credentials are allowed
/// exactly when an origin was present.
pub open spec fn reflects_origin(r: ResponsePlan, origin: Option<String>) -> bool {
    &&& r.allow_origin == origin
    &&& r.allow_credentials == origin is Some
}

/// Builds the CORS preflight response: `204 No Content`, with the requested
/// method and headers reflected verbatim into the corresponding allow
/// headers, each exactly when it was present.
pub fn preflight_response(cors: CorsRequest) -> (r: ResponsePlan)
    ensures
        r.status == 204,
        !r.content_type_sdp,
        reflects_origin(r, cors.origin),
        r.allow_methods == cors.request_method,
        r.allow_headers == cors.request_headers,
        r.body is None,
{
    let allow_credentials = cors.origin.is_some();
    ResponsePlan {
        status: 204,
        content_type_sdp: false,
        allow_origin: cors.origin,
        allow_credentials,
        allow_methods: cors.request_method,
        allow_headers: cors.request_headers,
        body: None,
    }
}

/// Maps the outcome of session creation to the `POST` response: a negotiated
/// answer gives `201 Created` with `Content-Type: application/sdp` and the
/// answer as the body; a negotiation failure gives a client or server error
/// with a descriptive body and must not abort the service.
pub fn post_response(cors: CorsRequest, outcome: Result<String, SessionError>) -> (r: ResponsePlan)
    ensures
        reflects_origin(r, cors.origin),
        r.allow_methods is None,
        r.allow_headers is None,
        outcome matches Ok(answer) ==> {
            &&& r.status == 201
            &&& r.content_type_sdp
            &&& r.body == Some(answer)
        },
        outcome matches Err(e) ==> {
            &&& r.status == error_status_spec(e)
            &&& !r.content_type_sdp
            &&& r.body matches Some(b) && b@ == error_message_spec(e)
        },
{
    let allow_credentials = cors.origin.is_some();
    match outcome {
        Ok(answer) => ResponsePlan {
            status: 201,
            content_type_sdp: true,
            allow_origin: cors.origin,
            allow_credentials,
            allow_methods: None,
            allow_headers: None,
            body: Some(answer),
        },
        Err(e) => ResponsePlan {
            status: if matches!(e, SessionError::OfferRejected) {
                400
            } else {
                500
            },
            content_type_sdp: false,
            allow_origin: cors.origin,
            allow_credentials,
            allow_methods: None,
            allow_headers: None,
            body: Some(e.message()),
        },
    }
}

/// Maps the outcome of session teardown to the `DELETE` response: `200` when
/// the named session existed and was removed, `404` when it did not exist —
/// so a second delete of the same path answers `404`.
pub fn delete_response(cors: CorsRequest, removed: bool) -> (r: ResponsePlan)
    ensures
        reflects_origin(r, cors.origin),
        r.status == (if removed {
            200u16
        } else {
            404u16
        }),
        !r.content_type_sdp,
        r.allow_methods is None,
        r.allow_headers is None,
        r.body is None,
{
    let allow_credentials = cors.origin.is_some();
    ResponsePlan {
        status: if removed {
            200
        } else {
            404
        },
        content_type_sdp: false,
        allow_origin: cors.origin,
        allow_credentials,
        allow_methods: None,
        allow_headers: None,
        body: None,
    }
}

/// The response for any method or path the service does not serve: `404 Not
/// Found`, still carrying the CORS reflection.
pub fn not_found_response(cors: CorsRequest) -> (r: ResponsePlan)
    ensures
        reflects_origin(r, cors.origin),
        r.status == 404,
        !r.content_type_sdp,
        r.allow_methods is None,
        r.allow_headers is None,
        r.body is None,
{
    let allow_credentials = cors.origin.is_some();
    ResponsePlan {
        status: 404,
        content_type_sdp: false,
        allow_origin: cors.origin,
        allow_credentials,
        allow_methods: None,
        allow_headers: None,
        body: None,
    }
}

} // verus!
