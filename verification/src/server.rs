//! The route table and the authentication check. The process edge binds the
//! listener and dispatches requests; this module fixes which paths exist,
//! which methods they take, which of them require the shared secret, and
//! what the check decides for any header value.

use vstd::prelude::*;
use crate::errors::UNAUTHORIZED;

verus! {

#[derive(Clone, Copy, PartialEq, Eq, Structural, Debug)]
pub enum HttpMethod {
    Get,
    Post,
}

#[derive(Clone, Copy, PartialEq, Eq, Structural, Debug)]
pub enum RouteKind {
    HealthCheck,
    Prove,
    ProveAndPush,
}

/// One entry of the route table. A protected route is reachable only
/// through the authentication gate.
pub struct Route {
    pub method: HttpMethod,
    pub path: String,
    pub protected: bool,
    pub kind: RouteKind,
}

/// The service's route table: the unguarded health check, and the two
/// proving routes behind the shared-secret gate.
pub fn create_router() -> (r: Vec<Route>)
    ensures
        r@.len() == 3,
        r@[0].method == HttpMethod::Get,
        r@[0].path@ == "/api/healthz"@,
        r@[0].protected == false,
        r@[0].kind == RouteKind::HealthCheck,
        r@[1].method == HttpMethod::Post,
        r@[1].path@ == "/api/prove"@,
        r@[1].protected == true,
        r@[1].kind == RouteKind::Prove,
        r@[2].method == HttpMethod::Post,
        r@[2].path@ == "/api/prove-and-push"@,
        r@[2].protected == true,
        r@[2].kind == RouteKind::ProveAndPush,
{
    let mut r: Vec<Route> = Vec::new();
    r.push(
        Route {
            method: HttpMethod::Get,
            path: String::from_str("/api/healthz"),
            protected: false,
            kind: RouteKind::HealthCheck,
        },
    );
    r.push(
        Route {
            method: HttpMethod::Post,
            path: String::from_str("/api/prove"),
            protected: true,
            kind: RouteKind::Prove,
        },
    );
    r.push(
        Route {
            method: HttpMethod::Post,
            path: String::from_str("/api/prove-and-push"),
            protected: true,
            kind: RouteKind::ProveAndPush,
        },
    );
    r
}

/// The port the service listens on: the configured value when one is set,
/// else 3000.
pub fn listening_port(configured: Option<String>) -> (r: String)
    ensures
        match configured {
            Some(p) => r@ == p@,
            None => r@ == "3000"@,
        },
{
    match configured {
        Some(p) => p,
        None => String::from_str("3000"),
    }
}

/// The cross-origin policy: any origin, the two methods the routes use, and
/// a fixed set of request headers.
pub struct CorsPolicy {
    pub allow_any_origin: bool,
    pub methods: Vec<HttpMethod>,
    pub headers: Vec<String>,
}

pub fn cors_policy() -> (r: CorsPolicy)
    ensures
        r.allow_any_origin == true,
        r.methods@ =~= seq![HttpMethod::Get, HttpMethod::Post],
        r.headers.deep_view() =~= seq!["Authorization"@, "Accept"@, "Content-Type"@],
{
    let mut methods: Vec<HttpMethod> = Vec::new();
    methods.push(HttpMethod::Get);
    methods.push(HttpMethod::Post);
    let mut headers: Vec<String> = Vec::new();
    headers.push(String::from_str("Authorization"));
    headers.push(String::from_str("Accept"));
    headers.push(String::from_str("Content-Type"));
    CorsPolicy { allow_any_origin: true, methods, headers }
}

/// What the authentication gate decides: let the request through to its
/// handler, or answer it at once.
pub enum AuthDecision {
    Proceed,
    Reject { status: u16, body: String },
}

/// The caller is authentic exactly when the request carries the key header
/// and its value equals the configured secret, byte for byte.
pub open spec fn api_key_ok(expected: Seq<char>, provided: Option<&str>) -> bool {
    match provided {
        Some(k) => k@ == expected,
        None => false,
    }
}

/// The authentication gate for the protected routes. `provided` is the
/// value of the request's `x-api-key` header, if the header is present; a
/// missing or mismatched key is rejected with 401 before the handler — and
/// so before any artifact directory — is touched.
pub fn api_key_middleware(expected_api_key: &str, provided: Option<&str>) -> (r: AuthDecision)
    ensures
        match r {
            AuthDecision::Proceed => api_key_ok(expected_api_key@, provided),
            AuthDecision::Reject { status, body } => !api_key_ok(expected_api_key@, provided)
                && status == UNAUTHORIZED && body@ == "Invalid or missing API key"@,
        },
{
    match provided {
        Some(k) => {
            let ks = String::from_str(k);
            let es = String::from_str(expected_api_key);
            if ks == es {
                AuthDecision::Proceed
            } else {
                AuthDecision::Reject {
                    status: UNAUTHORIZED,
                    body: String::from_str("Invalid or missing API key"),
                }
            }
        },
        None => AuthDecision::Reject {
            status: UNAUTHORIZED,
            body: String::from_str("Invalid or missing API key"),
        },
    }
}

} // verus!
