//! The HTTP client: request construction, response routing and credential
//! bookkeeping for a single-page application front-end.
//!
//! The client owns the session credentials and a model of the two persistent
//! storage entries they are mirrored into; the host application performs the
//! actual fetch and the actual storage writes.  `req` builds and records an
//! outgoing request; [`handle_response`] routes a completed response either
//! to its caller or, on an Unauthorized status, into a forced logout.

use std::collections::BTreeMap;
use vstd::prelude::*;
use vstd::string::StringExecFns;

use crate::jwt::{jwt_decoded, JWT};
use crate::query::{encode_query, qs_of};

verus! {

/// The HTTP method declared by a route.
#[derive(Clone, Copy, Debug, PartialEq, Eq, Structural)]
pub enum Method {
    Get,
    Post,
    Patch,
    Delete,
}

/// The JSON shape the server uses for non-success responses: a single
/// `error` string.  Consumed by callers; declared here so every call site
/// shares one definition.
#[derive(Debug)]
pub struct ErrorResponse {
    pub error: String,
}

/// A caller-supplied description of an API endpoint: the API base, the
/// endpoint's relative path, and the HTTP method to use.
#[derive(Debug)]
pub struct Route {
    pub api: String,
    pub path: String,
    pub method: Method,
}

/// A server authentication payload: the bearer token to send on subsequent
/// requests and the raw session token carrying the session identity.
#[derive(Debug)]
pub struct AuthResponse {
    pub token: String,
    pub jwt: String,
}

/// A message the client posts into the owning application's update loop.
#[derive(Clone, Copy, Debug, PartialEq, Eq, Structural)]
pub enum AppMsg {
    /// The server answered Unauthorized: the session is over.
    LoggedOut,
    /// Nothing for the application to do; the response went to its caller.
    Noop,
}

/// An outgoing request as the client builds it: the method and full URI, the
/// `Authorization` header when a bearer token is held, and the body text.
#[derive(Debug)]
pub struct HttpRequest {
    pub method: Method,
    pub uri: String,
    pub authorization: Option<String>,
    pub body: String,
}

/// A completed response as the network layer reports it: status code,
/// response headers and the raw body text.
#[derive(Debug)]
pub struct HttpResponse {
    pub status: u16,
    pub headers: Vec<(String, String)>,
    pub body: String,
}

/// The two persistent storage entries the client mirrors its credentials
/// into: the raw session token under the key `jwt` and the bearer token
/// under the key `token`.  An absent entry is `None`.
#[derive(Debug)]
pub struct StoredState {
    pub jwt_entry: Option<String>,
    pub token_entry: Option<String>,
}

/// The HTTP status code that forces a logout.
pub const UNAUTHORIZED: u16 = 401;

/// The view of an optional string: its characters, if present.
pub open spec fn opt_str_view(o: Option<String>) -> Option<Seq<char>> {
    match o {
        Some(s) => Some(s@),
        None => None,
    }
}

/// The view of the optional parameter map handed to `req`.
pub open spec fn opt_params_view(params: Option<&BTreeMap<String, String>>) -> Option<
    Map<Seq<char>, Seq<char>>,
> {
    match params {
        Some(m) => Some(m.deep_view()),
        None => None,
    }
}

/// The full request URI: `{api}/{path}{dyn_path}`, and when parameters are
/// supplied `?` followed by their encoding — or by nothing when the encoding
/// fails, which degrades silently rather than failing the call.
pub open spec fn uri_chars(
    api: Seq<char>,
    path: Seq<char>,
    dyn_path: Seq<char>,
    params: Option<Map<Seq<char>, Seq<char>>>,
) -> Seq<char> {
    let base = api + "/"@ + path + dyn_path;
    match params {
        None => base,
        Some(m) => base + "?"@ + (match qs_of(m) {
            Some(q) => q,
            None => Seq::<char>::empty(),
        }),
    }
}

/// The value of the `Authorization` header sent with a bearer token.
pub open spec fn bearer_chars(token: Seq<char>) -> Seq<char> {
    "Bearer "@ + token
}

/// The `Authorization` header carries `Bearer {token}` exactly when a bearer
/// token is held.
pub open spec fn auth_matches(token: Option<String>, authorization: Option<String>) -> bool {
    match (token, authorization) {
        (Some(t), Some(h)) => h@ == bearer_chars(t@),
        (None, None) => true,
        _ => false,
    }
}

/// Routes one completed response: an Unauthorized status is intercepted and
/// turned into a forced logout, never reaching the caller; any other status
/// is handed to the caller unchanged, and the application is told there is
/// nothing further to do.
///
/// The first component is what the caller's callback receives (`None` means
/// the callback is not invoked); the second is the single message posted to
/// the application.
pub fn handle_response(resp: HttpResponse) -> (r: (Option<HttpResponse>, AppMsg))
    ensures
        resp.status == UNAUTHORIZED ==> r == (None::<HttpResponse>, AppMsg::LoggedOut),
        resp.status != UNAUTHORIZED ==> r == (Some(resp), AppMsg::Noop),
{
    if resp.status == UNAUTHORIZED {
        (None, AppMsg::LoggedOut)
    } else {
        (Some(resp), AppMsg::Noop)
    }
}

/// Builds the full URI for a route: the route's base and path joined by a
/// slash, the caller's path suffix, and the encoded parameters if any.
pub fn build_uri(route: &Route, dyn_path: &str, params: Option<&BTreeMap<String, String>>) -> (r:
    String)
    ensures
        r@ == uri_chars(route.api@, route.path@, dyn_path@, opt_params_view(params)),
{
    let mut uri = String::from_str(route.api.as_str());
    uri.append("/");
    uri.append(route.path.as_str());
    uri.append(dyn_path);
    match params {
        Some(m) => {
            uri.append("?");
            match encode_query(m) {
                Some(q) => uri.append(q.as_str()),
                None => (),
            }
        },
        None => (),
    }
    uri
}

/// The browser-side HTTP client: the bearer token and decoded session
/// identity, their mirror in persistent storage, whether the client has been
/// bound to the application's update loop, and the requests still in flight.
#[derive(Debug)]
pub struct HttpClient {
    pub link_bound: bool,
    pub active_requests: Vec<HttpRequest>,
    pub raw_jwt: Option<String>,
    pub jwt: Option<JWT>,
    pub token: Option<String>,
    pub store: StoredState,
}

impl HttpClient {
    /// Well-formedness: the storage mirror agrees with the in-memory
    /// credentials, and the decoded identity is exactly what the held raw
    /// session token decodes to.
    pub open spec fn wf(self) -> bool {
        &&& opt_str_view(self.store.jwt_entry) == opt_str_view(self.raw_jwt)
        &&& opt_str_view(self.store.token_entry) == opt_str_view(self.token)
        &&& match self.raw_jwt {
            Some(r) => self.jwt == jwt_decoded(r@) && jwt_decoded(r@) is Some,
            None => self.jwt is None,
        }
    }

    /// No credentials are held, in memory or in the storage mirror.
    pub open spec fn credentials_cleared(self) -> bool {
        &&& self.token is None
        &&& self.raw_jwt is None
        &&& self.jwt is None
        &&& self.store.jwt_entry is None
        &&& self.store.token_entry is None
    }

    /// The credentials of `payload` are held, in memory and in the storage
    /// mirror.
    pub open spec fn credentials_from(self, payload_jwt: Seq<char>, payload_token: Seq<char>) -> bool {
        &&& opt_str_view(self.raw_jwt) == Some(payload_jwt)
        &&& opt_str_view(self.token) == Some(payload_token)
        &&& self.jwt == jwt_decoded(payload_jwt)
        &&& self.wf()
    }

    /// A bearer token is held.
    pub open spec fn spec_logged_in(self) -> bool {
        self.token is Some
    }

    /// Hydrates a client from the two persistent storage entries, as at
    /// application startup: no application link is bound yet, no request is
    /// in flight, and the credentials are whatever the store held.  A stored
    /// raw session token that does not decode is a corrupt configuration:
    /// the client refuses to come up.
    pub fn restore(store: StoredState) -> (r: Result<HttpClient, String>)
        ensures
            (r is Ok) <==> (match store.jwt_entry {
                Some(raw) => jwt_decoded(raw@) is Some,
                None => true,
            }),
            match r {
                Ok(c) => {
                    &&& c.wf()
                    &&& !c.link_bound
                    &&& c.active_requests@ == Seq::<HttpRequest>::empty()
                    &&& opt_str_view(c.raw_jwt) == opt_str_view(store.jwt_entry)
                    &&& opt_str_view(c.token) == opt_str_view(store.token_entry)
                    &&& c.jwt == (match store.jwt_entry {
                        Some(raw) => jwt_decoded(raw@),
                        None => None,
                    })
                },
                Err(_) => store.jwt_entry matches Some(raw) && jwt_decoded(raw@) is None,
            },
    {
        let jwt = match &store.jwt_entry {
            Some(raw) => match crate::jwt::decode_jwt(raw.as_str()) {
                Ok(j) => Some(j),
                Err(e) => return Err(e),
            },
            None => None,
        };
        let raw_jwt = match &store.jwt_entry {
            Some(r) => Some(r.clone()),
            None => None,
        };
        let token = match &store.token_entry {
            Some(t) => Some(t.clone()),
            None => None,
        };
        Ok(
            HttpClient {
                link_bound: false,
                active_requests: Vec::new(),
                raw_jwt,
                jwt,
                token,
                store,
            },
        )
    }

    /// Binds the client to the owning application's update loop; until then
    /// `req` refuses to dispatch.
    pub fn bind_link(&mut self)
        ensures
            final(self).link_bound,
            final(self).active_requests == old(self).active_requests,
            final(self).raw_jwt == old(self).raw_jwt,
            final(self).jwt == old(self).jwt,
            final(self).token == old(self).token,
            final(self).store == old(self).store,
    {
        self.link_bound = true;
    }

    /// Builds one outgoing request and records it in the in-flight set: the
    /// URI is `{api}/{path}{dyn_path}` with the encoded parameters appended
    /// after `?` when given, the method is the route's, the `Authorization`
    /// header carries `Bearer {token}` exactly when a bearer token is held,
    /// and the body is the caller's text.  Fails — without building anything
    /// — only when no application link is bound, a lifecycle error.  The
    /// host application fires the recorded request and hands the completed
    /// response to [`handle_response`].
    pub fn req(
        &mut self,
        route: &Route,
        dyn_path: &str,
        data: String,
        params: Option<&BTreeMap<String, String>>,
    ) -> (r: Result<(), String>)
        ensures
            (r is Ok) <==> old(self).link_bound,
            r matches Err(e) ==> *final(self) == *old(self) && e@ == "No link for request"@,
            r is Ok ==> ({
                let rq = final(self).active_requests@.last();
                &&& final(self).active_requests@ == old(self).active_requests@.push(rq)
                &&& rq.method == route.method
                &&& rq.uri@ == uri_chars(
                    route.api@,
                    route.path@,
                    dyn_path@,
                    opt_params_view(params),
                )
                &&& rq.body@ == data@
                &&& auth_matches(old(self).token, rq.authorization)
                &&& final(self).link_bound == old(self).link_bound
                &&& final(self).raw_jwt == old(self).raw_jwt
                &&& final(self).jwt == old(self).jwt
                &&& final(self).token == old(self).token
                &&& final(self).store == old(self).store
            }),
    {
        if !self.link_bound {
            return Err(String::from_str("No link for request"));
        }
        let uri = build_uri(route, dyn_path, params);
        let authorization = match &self.token {
            Some(t) => {
                let mut h = String::from_str("Bearer ");
                h.append(t.as_str());
                Some(h)
            },
            None => None,
        };
        let request = HttpRequest { method: route.method, uri, authorization, body: data };
        self.active_requests.push(request);
        Ok(())
    }

    /// The most recently recorded in-flight request, for the host
    /// application to fire.
    pub fn last_request(&self) -> (r: Option<&HttpRequest>)
        ensures
            match r {
                Some(rq) => self.active_requests@.len() > 0 && *rq == self.active_requests@.last(),
                None => self.active_requests@.len() == 0,
            },
    {
        if self.active_requests.len() > 0 {
            Some(&self.active_requests[self.active_requests.len() - 1])
        } else {
            None
        }
    }

    /// Clears the bearer token and session identity from memory and removes
    /// both entries from the storage mirror.  Idempotent: safe to call when
    /// already logged out.
    pub fn reset_credentials(&mut self)
        ensures
            final(self).credentials_cleared(),
            final(self).wf(),
            final(self).link_bound == old(self).link_bound,
            final(self).active_requests == old(self).active_requests,
    {
        self.token = None;
        self.raw_jwt = None;
        self.jwt = None;
        self.store.jwt_entry = None;
        self.store.token_entry = None;
    }

    /// Adopts the credentials of a server authentication payload: decodes
    /// the raw session token, and only on success stores the new bearer
    /// token, raw token and identity in memory and in the storage mirror.
    /// A payload whose session token does not decode is rejected and leaves
    /// every prior credential, in memory and in the mirror, unchanged.
    pub fn set_credentials(&mut self, payload: AuthResponse) -> (r: Result<(), String>)
        ensures
            (r is Ok) <==> jwt_decoded(payload.jwt@) is Some,
            r is Err ==> *final(self) == *old(self),
            r is Ok ==> final(self).credentials_from(payload.jwt@, payload.token@)
                && final(self).link_bound == old(self).link_bound
                && final(self).active_requests == old(self).active_requests,
    {
        let decoded = match crate::jwt::decode_jwt(payload.jwt.as_str()) {
            Ok(j) => j,
            Err(e) => return Err(e),
        };
        self.raw_jwt = Some(payload.jwt.clone());
        self.store.jwt_entry = Some(payload.jwt);
        self.token = Some(payload.token.clone());
        self.store.token_entry = Some(payload.token);
        self.jwt = Some(decoded);
        Ok(())
    }

    /// True exactly when a bearer token is held.  Pure query.
    pub fn is_logged_in(&self) -> (r: bool)
        ensures
            r == self.spec_logged_in(),
    {
        self.token.is_some()
    }
}

/// A client whose credentials are cleared reports logged out: resetting
/// credentials and then asking `is_logged_in` yields `false`.
pub proof fn lemma_cleared_means_logged_out(c: HttpClient)
    requires
        c.credentials_cleared(),
    ensures
        !c.spec_logged_in(),
{
}

/// A client that adopted a well-formed authentication payload reports
/// logged in: a successful `set_credentials` followed by `is_logged_in`
/// yields `true`.
pub proof fn lemma_set_means_logged_in(c: HttpClient, payload_jwt: Seq<char>, payload_token: Seq<char>)
    requires
        c.credentials_from(payload_jwt, payload_token),
    ensures
        c.spec_logged_in(),
{
}

/// Round trip through persistent storage: a client hydrated from the
/// storage a well-formed client left behind holds the same bearer token and
/// the same decoded session identity — in particular the same subject
/// identifier and expiration.
pub proof fn lemma_storage_round_trip(c1: HttpClient, c2: HttpClient)
    requires
        c1.wf(),
        c2.wf(),
        opt_str_view(c2.raw_jwt) == opt_str_view(c1.store.jwt_entry),
        opt_str_view(c2.token) == opt_str_view(c1.store.token_entry),
    ensures
        c2.jwt == c1.jwt,
        opt_str_view(c2.token) == opt_str_view(c1.token),
{
}

} // verus!
