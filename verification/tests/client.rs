use std::collections::BTreeMap;

use http_client::client::{
    handle_response, AppMsg, AuthResponse, HttpClient, HttpResponse, Method, Route, StoredState,
};
use http_client::jwt::JWT;

// {"sub":"550e8400-e29b-41d4-a716-446655440000","exp":1300819380}
const PAYLOAD: &str =
    "eyJzdWIiOiI1NTBlODQwMC1lMjliLTQxZDQtYTcxNi00NDY2NTU0NDAwMDAiLCJleHAiOjEzMDA4MTkzODB9";
const SUB: u128 = 0x550e8400e29b41d4a716446655440000;

fn users_route() -> Route {
    Route {
        api: "https://api.example.com".to_string(),
        path: "users".to_string(),
        method: Method::Get,
    }
}

fn empty_store() -> StoredState {
    StoredState { jwt_entry: None, token_entry: None }
}

fn well_formed_token() -> String {
    format!("header.{}.signature", PAYLOAD)
}

#[test]
fn dispatch_without_token_builds_plain_uri() {
    let mut client = HttpClient::restore(empty_store()).unwrap();
    client.bind_link();
    let r = client.req(&users_route(), "/42", String::new(), None);
    assert_eq!(r, Ok(()));
    let rq = client.last_request().unwrap();
    assert_eq!(rq.uri, "https://api.example.com/users/42");
    assert_eq!(rq.method, Method::Get);
    assert_eq!(rq.authorization, None);
    assert_eq!(rq.body, "");
}

#[test]
fn dispatch_appends_encoded_params() {
    let mut client = HttpClient::restore(empty_store()).unwrap();
    client.bind_link();
    let mut params = BTreeMap::new();
    params.insert("page".to_string(), "2".to_string());
    params.insert("q".to_string(), "rust code".to_string());
    let route = Route {
        api: "https://api.example.com".to_string(),
        path: "search".to_string(),
        method: Method::Post,
    };
    let r = client.req(&route, "", "body".to_string(), Some(&params));
    assert_eq!(r, Ok(()));
    let rq = client.last_request().unwrap();
    assert_eq!(rq.uri, "https://api.example.com/search?page=2&q=rust+code");
    assert_eq!(rq.method, Method::Post);
    assert_eq!(rq.body, "body");
}

#[test]
fn dispatch_with_token_carries_bearer_header() {
    let mut client = HttpClient::restore(empty_store()).unwrap();
    client.bind_link();
    let r = client.set_credentials(AuthResponse {
        token: "tok123".to_string(),
        jwt: well_formed_token(),
    });
    assert_eq!(r, Ok(()));
    client.req(&users_route(), "", String::new(), None).unwrap();
    let rq = client.last_request().unwrap();
    assert_eq!(rq.authorization.as_deref(), Some("Bearer tok123"));
}

#[test]
fn dispatch_without_link_fails_fast() {
    let mut client = HttpClient::restore(empty_store()).unwrap();
    let r = client.req(&users_route(), "/42", String::new(), None);
    assert_eq!(r, Err("No link for request".to_string()));
    assert!(client.last_request().is_none());
}

#[test]
fn unauthorized_response_forces_logout() {
    let resp = HttpResponse { status: 401, headers: Vec::new(), body: "{}".to_string() };
    let (forwarded, msg) = handle_response(resp);
    assert!(forwarded.is_none());
    assert_eq!(msg, AppMsg::LoggedOut);
}

#[test]
fn other_responses_reach_the_caller_unchanged() {
    let resp = HttpResponse {
        status: 500,
        headers: vec![("content-type".to_string(), "application/json".to_string())],
        body: "{\"error\":\"boom\"}".to_string(),
    };
    let (forwarded, msg) = handle_response(resp);
    let got = forwarded.expect("callback must be invoked");
    assert_eq!(got.status, 500);
    assert_eq!(got.headers, vec![("content-type".to_string(), "application/json".to_string())]);
    assert_eq!(got.body, "{\"error\":\"boom\"}");
    assert_eq!(msg, AppMsg::Noop);
}

#[test]
fn login_state_follows_credentials() {
    let mut client = HttpClient::restore(empty_store()).unwrap();
    assert!(!client.is_logged_in());
    client
        .set_credentials(AuthResponse { token: "tok".to_string(), jwt: well_formed_token() })
        .unwrap();
    assert!(client.is_logged_in());
    client.reset_credentials();
    assert!(!client.is_logged_in());
    // resetting again is safe: still logged out
    client.reset_credentials();
    assert!(!client.is_logged_in());
    assert!(client.store.jwt_entry.is_none());
    assert!(client.store.token_entry.is_none());
}

#[test]
fn malformed_payload_leaves_credentials_unchanged() {
    let mut client = HttpClient::restore(empty_store()).unwrap();
    client
        .set_credentials(AuthResponse { token: "old-token".to_string(), jwt: well_formed_token() })
        .unwrap();
    let r = client.set_credentials(AuthResponse {
        token: "new-token".to_string(),
        jwt: "not.a-valid!token.x".to_string(),
    });
    assert!(r.is_err());
    assert_eq!(client.token.as_deref(), Some("old-token"));
    assert_eq!(client.raw_jwt.as_deref(), Some(well_formed_token().as_str()));
    assert_eq!(client.jwt, Some(JWT { sub: SUB, exp: 1300819380 }));
    assert_eq!(client.store.token_entry.as_deref(), Some("old-token"));
    assert_eq!(client.store.jwt_entry.as_deref(), Some(well_formed_token().as_str()));
    assert!(client.is_logged_in());
}

#[test]
fn restore_round_trips_through_storage() {
    let mut first = HttpClient::restore(empty_store()).unwrap();
    first
        .set_credentials(AuthResponse { token: "tok".to_string(), jwt: well_formed_token() })
        .unwrap();
    let second = HttpClient::restore(first.store).unwrap();
    assert_eq!(second.jwt, Some(JWT { sub: SUB, exp: 1300819380 }));
    assert_eq!(second.jwt, first.jwt);
    assert_eq!(second.token.as_deref(), Some("tok"));
    assert!(second.is_logged_in());
    assert!(!second.link_bound);
}

#[test]
fn restore_with_empty_store_starts_logged_out() {
    let client = HttpClient::restore(empty_store()).unwrap();
    assert!(!client.is_logged_in());
    assert!(client.jwt.is_none());
    assert!(client.last_request().is_none());
}

#[test]
fn restore_refuses_corrupt_stored_token() {
    let store = StoredState {
        jwt_entry: Some("corrupt".to_string()),
        token_entry: Some("tok".to_string()),
    };
    assert!(HttpClient::restore(store).is_err());
}

#[test]
fn pending_requests_accumulate() {
    let mut client = HttpClient::restore(empty_store()).unwrap();
    client.bind_link();
    client.req(&users_route(), "/1", String::new(), None).unwrap();
    client.req(&users_route(), "/2", String::new(), None).unwrap();
    assert_eq!(client.active_requests.len(), 2);
    assert_eq!(client.active_requests[0].uri, "https://api.example.com/users/1");
    assert_eq!(client.active_requests[1].uri, "https://api.example.com/users/2");
}
