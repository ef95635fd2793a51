//! Gateway errors, and the typed codes and HTTP statuses that clients recognise.

use vstd::prelude::*;

use crate::k8s::ApiError;

verus! {

/// Why a request is refused.
#[derive(Debug, PartialEq)]
pub enum GatewayError {
    /// No Sandbox with this name in the caller's namespace.
    NotFound(String),
    /// The Sandbox exists but has no reachable bridge yet. Retriable by the client.
    NotReady(String),
    /// The Bearer token was missing, malformed, or rejected.
    Unauthorized(String),
    /// The identity is authenticated but not allowed to reach this sandbox.
    Forbidden(String),
    /// Malformed request, invalid name, or a create that failed or timed out.
    InvalidRequest(String),
    /// Create with a name that already exists.
    AlreadyExists(String),
    /// A route intentionally unimplemented.
    NotImplemented(String),
    /// Talking to the API server failed.
    Kube(ApiError),
    /// Dialing or splicing the bridge failed.
    Bridge(String),
}

#[verifier::ext_equal]
pub enum GatewayErrorView {
    NotFound(Seq<char>),
    NotReady(Seq<char>),
    Unauthorized(Seq<char>),
    Forbidden(Seq<char>),
    InvalidRequest(Seq<char>),
    AlreadyExists(Seq<char>),
    NotImplemented(Seq<char>),
    Kube(Seq<char>),
    Bridge(Seq<char>),
}

impl View for GatewayError {
    type V = GatewayErrorView;

    open spec fn view(&self) -> GatewayErrorView {
        match *self {
            GatewayError::NotFound(s) => GatewayErrorView::NotFound(s@),
            GatewayError::NotReady(s) => GatewayErrorView::NotReady(s@),
            GatewayError::Unauthorized(s) => GatewayErrorView::Unauthorized(s@),
            GatewayError::Forbidden(s) => GatewayErrorView::Forbidden(s@),
            GatewayError::InvalidRequest(s) => GatewayErrorView::InvalidRequest(s@),
            GatewayError::AlreadyExists(s) => GatewayErrorView::AlreadyExists(s@),
            GatewayError::NotImplemented(s) => GatewayErrorView::NotImplemented(s@),
            GatewayError::Kube(e) => GatewayErrorView::Kube(e.message@),
            GatewayError::Bridge(s) => GatewayErrorView::Bridge(s@),
        }
    }
}

/// The typed code of an error.
pub open spec fn code_of(e: GatewayErrorView) -> Seq<char> {
    match e {
        GatewayErrorView::NotFound(_) => "sandbox_not_found"@,
        GatewayErrorView::NotReady(_) => "sandbox_not_ready"@,
        GatewayErrorView::Unauthorized(_) => "unauthorized"@,
        GatewayErrorView::Forbidden(_) => "forbidden"@,
        GatewayErrorView::InvalidRequest(_) => "invalid_request"@,
        GatewayErrorView::AlreadyExists(_) => "name_already_exists"@,
        GatewayErrorView::NotImplemented(_) => "invalid_request"@,
        GatewayErrorView::Kube(_) | GatewayErrorView::Bridge(_) => "internal"@,
    }
}

/// The HTTP status of an error.
pub open spec fn status_of(e: GatewayErrorView) -> u16 {
    match e {
        GatewayErrorView::NotFound(_) => 404,
        GatewayErrorView::NotReady(_) => 409,
        GatewayErrorView::Unauthorized(_) => 401,
        GatewayErrorView::Forbidden(_) => 403,
        GatewayErrorView::InvalidRequest(_) => 400,
        GatewayErrorView::AlreadyExists(_) => 409,
        GatewayErrorView::NotImplemented(_) => 501,
        GatewayErrorView::Kube(_) | GatewayErrorView::Bridge(_) => 502,
    }
}

/// What an error says.
pub open spec fn message_of(e: GatewayErrorView) -> Seq<char> {
    match e {
        GatewayErrorView::NotFound(s) => "sandbox not found: "@ + s,
        GatewayErrorView::NotReady(s) => "sandbox not ready: "@ + s,
        GatewayErrorView::Unauthorized(s) => "unauthorized: "@ + s,
        GatewayErrorView::Forbidden(s) => "forbidden: "@ + s,
        GatewayErrorView::InvalidRequest(s) => "invalid request: "@ + s,
        GatewayErrorView::AlreadyExists(s) => "sandbox already exists: "@ + s,
        GatewayErrorView::NotImplemented(s) => "not implemented: "@ + s,
        GatewayErrorView::Kube(s) => s,
        GatewayErrorView::Bridge(s) => "bridge transport: "@ + s,
    }
}

impl GatewayError {
    /// The typed code that the client's library recognises.
    pub fn code(&self) -> (s: &'static str)
        ensures
            s@ == code_of(self@),
    {
        match self {
            GatewayError::NotFound(_) => "sandbox_not_found",
            GatewayError::NotReady(_) => "sandbox_not_ready",
            GatewayError::Unauthorized(_) => "unauthorized",
            GatewayError::Forbidden(_) => "forbidden",
            GatewayError::InvalidRequest(_) => "invalid_request",
            GatewayError::AlreadyExists(_) => "name_already_exists",
            GatewayError::NotImplemented(_) => "invalid_request",
            GatewayError::Kube(_) => "internal",
            GatewayError::Bridge(_) => "internal",
        }
    }

    /// The HTTP status. A sandbox that is not ready answers with a conflict: the
    /// client may retry.
    pub fn status(&self) -> (n: u16)
        ensures
            n == status_of(self@),
    {
        match self {
            GatewayError::NotFound(_) => 404,
            GatewayError::NotReady(_) => 409,
            GatewayError::Unauthorized(_) => 401,
            GatewayError::Forbidden(_) => 403,
            GatewayError::InvalidRequest(_) => 400,
            GatewayError::AlreadyExists(_) => 409,
            GatewayError::NotImplemented(_) => 501,
            GatewayError::Kube(_) => 502,
            GatewayError::Bridge(_) => 502,
        }
    }

    /// The error in words.
    pub fn message(&self) -> (out: String)
        ensures
            out@ == message_of(self@),
    {
        match self {
            GatewayError::NotFound(s) => "sandbox not found: ".to_owned().concat(s.as_str()),
            GatewayError::NotReady(s) => "sandbox not ready: ".to_owned().concat(s.as_str()),
            GatewayError::Unauthorized(s) => "unauthorized: ".to_owned().concat(s.as_str()),
            GatewayError::Forbidden(s) => "forbidden: ".to_owned().concat(s.as_str()),
            GatewayError::InvalidRequest(s) => "invalid request: ".to_owned().concat(s.as_str()),
            GatewayError::AlreadyExists(s) => "sandbox already exists: ".to_owned().concat(
                s.as_str(),
            ),
            GatewayError::NotImplemented(s) => "not implemented: ".to_owned().concat(s.as_str()),
            GatewayError::Kube(e) => e.message.clone(),
            GatewayError::Bridge(s) => "bridge transport: ".to_owned().concat(s.as_str()),
        }
    }
}

/// Every refusal is answered with an error status, and one that is the client's
/// own doing with one of the four hundreds.
pub proof fn refusals_are_errors(e: GatewayErrorView)
    ensures
        400 <= status_of(e) < 600,
        status_of(e) >= 500 <==> e is NotImplemented || e is Kube || e is Bridge,
{
}

/// What was wrong is told to the client at the end of the message, whatever it was, and
/// refusals of different kinds do not read alike: two with the same code have the same
/// status, but for what is not implemented, which is told as an invalid request.
pub proof fn a_refusal_tells_what_was_wrong(e: GatewayErrorView, other: GatewayErrorView)
    ensures
        message_of(e).len() >= detail(e).len(),
        message_of(e).skip(message_of(e).len() - detail(e).len()) == detail(e),
        code_of(e) == code_of(other) && !(e is NotImplemented) && !(other is NotImplemented)
            ==> status_of(e) == status_of(other),
        e is Unauthorized <==> status_of(e) == 401,
        e is Forbidden <==> status_of(e) == 403,
        e is NotFound <==> status_of(e) == 404,
        e is InvalidRequest <==> status_of(e) == 400,
        e is NotImplemented <==> status_of(e) == 501,
        e is NotReady || e is AlreadyExists <==> status_of(e) == 409,
        e is NotReady && other is AlreadyExists ==> code_of(e) != code_of(other),
{
    reveal_strlit("sandbox_not_found");
    reveal_strlit("sandbox_not_ready");
    reveal_strlit("unauthorized");
    reveal_strlit("forbidden");
    reveal_strlit("invalid_request");
    reveal_strlit("name_already_exists");
    reveal_strlit("internal");
    assert("sandbox_not_found"@.len() == 17);
    assert("sandbox_not_ready"@.len() == 17);
    assert("sandbox_not_found"@[12] == 'f');
    assert("sandbox_not_ready"@[12] == 'r');
    assert("unauthorized"@.len() == 12);
    assert("forbidden"@.len() == 9);
    assert("invalid_request"@.len() == 15);
    assert("name_already_exists"@.len() == 19);
    assert("internal"@.len() == 8);
    assert(message_of(e).skip(message_of(e).len() - detail(e).len()) =~= detail(e));
}

/// What an error is about.
pub open spec fn detail(e: GatewayErrorView) -> Seq<char> {
    match e {
        GatewayErrorView::NotFound(s) => s,
        GatewayErrorView::NotReady(s) => s,
        GatewayErrorView::Unauthorized(s) => s,
        GatewayErrorView::Forbidden(s) => s,
        GatewayErrorView::InvalidRequest(s) => s,
        GatewayErrorView::AlreadyExists(s) => s,
        GatewayErrorView::NotImplemented(s) => s,
        GatewayErrorView::Kube(s) => s,
        GatewayErrorView::Bridge(s) => s,
    }
}

} // verus!
