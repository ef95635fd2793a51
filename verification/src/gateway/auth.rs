//! Bearer-token auth on Kubernetes identity: the token authenticates a service
//! account, whose namespace is the caller's, and the cluster's own access rules
//! say what the caller may do.

use vstd::prelude::*;

use crate::collections;
use crate::gateway::error::{GatewayError, GatewayErrorView};
use crate::text;

verus! {

pub const SANDBOX_GROUP: &'static str = "sandbox.microsandbox.dev";

pub const SANDBOX_RESOURCE: &'static str = "sandboxes";

/// An authenticated caller, with the namespace derived from the token.
#[derive(Debug, PartialEq)]
pub struct Identity {
    pub username: String,
    pub namespace: String,
}

#[verifier::ext_equal]
pub struct IdentityView {
    pub username: Seq<char>,
    pub namespace: Seq<char>,
}

impl View for Identity {
    type V = IdentityView;

    open spec fn view(&self) -> IdentityView {
        IdentityView { username: self.username@, namespace: self.namespace@ }
    }
}

/// What a header says behind `Bearer `, with a capital or a small `b`.
pub open spec fn behind_bearer(raw: Seq<char>) -> Option<Seq<char>> {
    if text::has_prefix(raw, "Bearer "@) || text::has_prefix(raw, "bearer "@) {
        Some(raw.skip(7))
    } else {
        None
    }
}

/// The token of an `Authorization` header.
pub open spec fn token_of(header: Option<Seq<char>>) -> Result<Seq<char>, GatewayErrorView> {
    match header {
        None => Err(GatewayErrorView::Unauthorized("missing Authorization"@)),
        Some(raw) => match behind_bearer(raw) {
            None => Err(GatewayErrorView::Unauthorized("expected Bearer token"@)),
            Some(token) => if token.len() == 0 {
                Err(GatewayErrorView::Unauthorized("empty Bearer token"@))
            } else {
                Ok(token)
            },
        },
    }
}

/// The view of an optional string slice.
pub open spec fn opt_str(o: Option<&str>) -> Option<Seq<char>> {
    match o {
        Some(s) => Some(s@),
        None => None,
    }
}

/// Extract the bearer token from an `Authorization` header value.
pub fn bearer_token(header: Option<&str>) -> (r: Result<String, GatewayError>)
    ensures
        collections::res(r) == token_of(opt_str(header)),
{
    proof {
        reveal_strlit("Bearer ");
        reveal_strlit("bearer ");
    }
    let raw = match header {
        Some(h) => h,
        None => {
            return Err(GatewayError::Unauthorized("missing Authorization".to_owned()));
        },
    };
    let token = match text::strip_prefix(raw, "Bearer ") {
        Some(t) => t,
        None => match text::strip_prefix(raw, "bearer ") {
            Some(t) => t,
            None => {
                return Err(GatewayError::Unauthorized("expected Bearer token".to_owned()));
            },
        },
    };
    if token.as_str().is_empty() {
        return Err(GatewayError::Unauthorized("empty Bearer token".to_owned()));
    }
    Ok(token)
}

/// What every service account name begins with.
pub const SERVICE_ACCOUNT_PREFIX: &'static str = "system:serviceaccount:";

/// The namespace of a service account: of `system:serviceaccount:<namespace>:<name>`
/// the third part of exactly four.
pub open spec fn account_namespace(username: Seq<char>) -> Option<Seq<char>> {
    if text::has_prefix(username, SERVICE_ACCOUNT_PREFIX@) {
        match text::split_once_at(username.skip(SERVICE_ACCOUNT_PREFIX@.len() as int), ':') {
            Some((namespace, name)) => if name.contains(':') {
                None
            } else {
                Some(namespace)
            },
            None => None,
        }
    } else {
        None
    }
}

/// What a caller hears whose identity is no service account.
pub open spec fn no_namespace_text(username: Seq<char>) -> Seq<char> {
    "cannot derive namespace from identity "@ + text::debug_text(username)
        + ": use a ServiceAccount token (the SDK sends no namespace, so it is taken from the SA's namespace)"@
}

/// Derive the namespace from a ServiceAccount username; other identities cannot be
/// served, as the request itself conveys no namespace.
pub fn namespace_from_username(username: &str) -> (r: Result<String, GatewayError>)
    ensures
        collections::res(r) == (match account_namespace(username@) {
            Some(ns) => Ok(ns),
            None => Err(GatewayErrorView::InvalidRequest(no_namespace_text(username@))),
        }),
{
    if let Some(rest) = text::strip_prefix(username, SERVICE_ACCOUNT_PREFIX) {
        if let Some((namespace, name)) = text::split_once(rest.as_str(), ':') {
            let more = text::split_once(name.as_str(), ':');
            proof {
                text::first_pos_is_first(name@, ':');
            }
            if more.is_none() {
                return Ok(namespace);
            }
        }
    }
    Err(
        GatewayError::InvalidRequest(
            "cannot derive namespace from identity ".to_owned().concat(
                text::debug(username).as_str(),
            ).concat(
                ": use a ServiceAccount token (the SDK sends no namespace, so it is taken from the SA's namespace)",
            ),
        ),
    )
}

/// A service account is served in its own namespace.
pub proof fn service_account_is_served_in_its_namespace(namespace: Seq<char>, name: Seq<char>)
    requires
        !namespace.contains(':'),
        !name.contains(':'),
    ensures
        account_namespace(SERVICE_ACCOUNT_PREFIX@ + namespace + ":"@ + name) == Some(namespace),
{
    reveal_strlit(":");
    let u = SERVICE_ACCOUNT_PREFIX@ + namespace + ":"@ + name;
    let rest = namespace + ":"@ + name;
    let k = SERVICE_ACCOUNT_PREFIX@.len() as int;
    assert(u.take(k) =~= SERVICE_ACCOUNT_PREFIX@);
    assert(u.skip(k) =~= rest);
    text::first_pos_is_first(rest, ':');
    let p = text::first_pos(rest, ':');
    assert(rest[namespace.len() as int] == ':');
    assert(rest.contains(':'));
    if p < namespace.len() {
        assert(namespace[p] == ':');
        assert(namespace.contains(':'));
    }
    if p > namespace.len() {
        assert(rest[namespace.len() as int] != ':');
    }
    assert(rest.take(p) =~= namespace);
    assert(rest.skip(p + 1) =~= name);
}

/// What a token review says.
#[derive(Debug, PartialEq)]
pub struct TokenReviewStatus {
    pub authenticated: Option<bool>,
    pub error: Option<String>,
    pub username: Option<String>,
}

/// The user that a token review names.
pub open spec fn reviewed_user(status: Option<TokenReviewStatus>) -> Result<
    Seq<char>,
    GatewayErrorView,
> {
    match status {
        None => Err(GatewayErrorView::Unauthorized("token review returned no status"@)),
        Some(s) => if s.authenticated != Some(true) {
            Err(
                GatewayErrorView::Unauthorized(
                    match s.error {
                        Some(e) => e@,
                        None => "token not authenticated"@,
                    },
                ),
            )
        } else {
            match s.username {
                Some(u) => Ok(u@),
                None => Err(GatewayErrorView::Unauthorized("token review returned no username"@)),
            }
        },
    }
}

/// The user that a token review names, or why the token is refused.
pub fn authenticate(status: Option<TokenReviewStatus>) -> (r: Result<String, GatewayError>)
    ensures
        collections::res(r) == reviewed_user(status),
{
    let status = match status {
        Some(s) => s,
        None => {
            return Err(GatewayError::Unauthorized("token review returned no status".to_owned()));
        },
    };
    if !matches!(status.authenticated, Some(true)) {
        let msg = match status.error {
            Some(e) => e,
            None => "token not authenticated".to_owned(),
        };
        return Err(GatewayError::Unauthorized(msg));
    }
    match status.username {
        Some(u) => Ok(u),
        None => Err(GatewayError::Unauthorized("token review returned no username".to_owned())),
    }
}

/// The caller that a token review names.
pub open spec fn reviewed_identity(status: Option<TokenReviewStatus>) -> Result<
    IdentityView,
    GatewayErrorView,
> {
    match reviewed_user(status) {
        Err(e) => Err(e),
        Ok(username) => match account_namespace(username) {
            Some(namespace) => Ok(IdentityView { username, namespace }),
            None => Err(GatewayErrorView::InvalidRequest(no_namespace_text(username))),
        },
    }
}

/// Authenticate and derive the namespace, but authorize nothing.
pub fn authenticate_identity(status: Option<TokenReviewStatus>) -> (r: Result<
    Identity,
    GatewayError,
>)
    ensures
        collections::res(r) == reviewed_identity(status),
{
    let username = match authenticate(status) {
        Ok(u) => u,
        Err(e) => {
            return Err(e);
        },
    };
    match namespace_from_username(username.as_str()) {
        Ok(namespace) => Ok(Identity { username, namespace }),
        Err(e) => Err(e),
    }
}

/// What the cluster is asked: whether a user may do something to a sandbox, or to
/// the collection of them, in a namespace.
#[derive(Debug, PartialEq)]
pub struct AccessRequest {
    pub user: String,
    pub namespace: String,
    pub verb: String,
    pub group: String,
    pub resource: String,
    pub name: Option<String>,
}

/// The question whether this caller may do `verb` to the sandbox `name`, or to the
/// collection, in its own namespace.
pub fn access_request(id: &Identity, verb: &str, name: Option<&str>) -> (r: AccessRequest)
    ensures
        r.user@ == id.username@,
        r.namespace@ == id.namespace@,
        r.verb@ == verb@,
        r.group@ == SANDBOX_GROUP@,
        r.resource@ == SANDBOX_RESOURCE@,
        collections::opt(r.name) == opt_str(name),
{
    AccessRequest {
        user: id.username.clone(),
        namespace: id.namespace.clone(),
        verb: verb.to_owned(),
        group: SANDBOX_GROUP.to_owned(),
        resource: SANDBOX_RESOURCE.to_owned(),
        name: match name {
            Some(n) => Some(n.to_owned()),
            None => None,
        },
    }
}

/// What an access review says.
#[derive(Debug, PartialEq)]
pub struct AccessReviewStatus {
    pub allowed: bool,
    pub reason: Option<String>,
}

/// What an access review means for the caller.
pub open spec fn access_outcome(
    id: IdentityView,
    verb: Seq<char>,
    name: Option<Seq<char>>,
    status: Option<AccessReviewStatus>,
) -> Option<GatewayErrorView> {
    match status {
        None => Some(GatewayErrorView::Forbidden("access review returned no status"@)),
        Some(s) => if s.allowed {
            None
        } else {
            Some(
                GatewayErrorView::Forbidden(
                    id.username + " cannot "@ + verb + " sandbox "@ + id.namespace + "/"@ + (
                    match name {
                        Some(n) => n,
                        None => "<collection>"@,
                    }) + ": "@ + (match s.reason {
                        Some(r) => r@,
                        None => "not allowed"@,
                    }),
                ),
            )
        },
    }
}

/// What an access review means for the caller: nothing but an explicit permission
/// lets a request through.
pub fn authorize_verb(
    id: &Identity,
    verb: &str,
    name: Option<&str>,
    status: Option<AccessReviewStatus>,
) -> (r: Result<(), GatewayError>)
    ensures
        r is Ok <==> access_outcome(id@, verb@, opt_str(name), status) is None,
        r matches Err(e) ==> access_outcome(id@, verb@, opt_str(name), status) == Some(e@),
        r is Ok <==> status is Some && status->0.allowed,
{
    let status = match status {
        Some(s) => s,
        None => {
            return Err(GatewayError::Forbidden("access review returned no status".to_owned()));
        },
    };
    if status.allowed {
        return Ok(());
    }
    let reason = match status.reason {
        Some(r) => r,
        None => "not allowed".to_owned(),
    };
    let target = match name {
        Some(n) => n,
        None => "<collection>",
    };
    Err(
        GatewayError::Forbidden(
            id.username.clone().concat(" cannot ").concat(verb).concat(" sandbox ").concat(
                id.namespace.as_str(),
            ).concat("/").concat(target).concat(": ").concat(reason.as_str()),
        ),
    )
}

/// A request to the gateway.
#[derive(Clone, Copy, Debug, PartialEq, Eq, Structural)]
pub enum Route {
    Create,
    Get,
    List,
    Delete,
    Start,
    Stop,
    Exec,
    Logs,
}

/// The verb that a route takes in the cluster's access rules.
pub open spec fn verb_of(route: Route) -> Seq<char> {
    match route {
        Route::Create => "create"@,
        Route::Get | Route::Exec | Route::Logs => "get"@,
        Route::List => "list"@,
        Route::Delete | Route::Stop => "delete"@,
        Route::Start => "patch"@,
    }
}

/// The verb that a route takes in the cluster's access rules. To stop a
/// sandbox takes the right to delete it; to start it is to edit its specification.
pub fn verb(route: Route) -> (s: &'static str)
    ensures
        s@ == verb_of(route),
{
    match route {
        Route::Create => "create",
        Route::Get => "get",
        Route::Exec => "get",
        Route::Logs => "get",
        Route::List => "list",
        Route::Delete => "delete",
        Route::Start => "patch",
        Route::Stop => "delete",
    }
}

/// Only an explicit permission lets a request through. Without one it is forbidden,
/// whoever asks for whatever.
pub proof fn only_a_permission_lets_through(
    id: IdentityView,
    verb: Seq<char>,
    name: Option<Seq<char>>,
    status: Option<AccessReviewStatus>,
)
    ensures
        access_outcome(id, verb, name, status) is None <==> status is Some && status->0.allowed,
        access_outcome(id, verb, name, status) matches Some(e) ==> e is Forbidden,
        status is Some && !status->0.allowed ==> text::has_prefix(
            access_outcome(id, verb, name, status)->0->Forbidden_0,
            id.username + " cannot "@ + verb,
        ),
        status is Some && !status->0.allowed && status->0.reason is Some ==> text::has_suffix(
            access_outcome(id, verb, name, status)->0->Forbidden_0,
            status->0.reason->0@,
        ),
{
    if status is Some && !status->0.allowed {
        let told = access_outcome(id, verb, name, status)->0->Forbidden_0;
        let start = id.username + " cannot "@ + verb;
        assert(told.take(start.len() as int) =~= start);
        if let Some(r) = status->0.reason {
            assert(told.skip(told.len() - r@.len()) =~= r@);
        }
    }
}

} // verus!
