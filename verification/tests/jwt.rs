use http_client::jwt::{decode_jwt, JWT};

// {"sub":"550e8400-e29b-41d4-a716-446655440000","exp":1300819380}
const PAYLOAD: &str =
    "eyJzdWIiOiI1NTBlODQwMC1lMjliLTQxZDQtYTcxNi00NDY2NTU0NDAwMDAiLCJleHAiOjEzMDA4MTkzODB9";
const SUB: u128 = 0x550e8400e29b41d4a716446655440000;

#[test]
fn decodes_well_formed_token() {
    let token = format!("header.{}.signature", PAYLOAD);
    assert_eq!(decode_jwt(&token), Ok(JWT { sub: SUB, exp: 1300819380 }));
}

#[test]
fn decodes_negative_expiration() {
    // {"sub":"00000000-0000-0000-0000-000000000001","exp":-7}
    let token = "h.eyJzdWIiOiIwMDAwMDAwMC0wMDAwLTAwMDAtMDAwMC0wMDAwMDAwMDAwMDEiLCJleHAiOi03fQ.s";
    assert_eq!(decode_jwt(token), Ok(JWT { sub: 1, exp: -7 }));
}

#[test]
fn rejects_wrong_segment_count() {
    assert!(decode_jwt("nodotsatall").is_err());
    assert!(decode_jwt(&format!("onedot.{}", PAYLOAD)).is_err());
    assert!(decode_jwt(&format!("a.{}.c.d", PAYLOAD)).is_err());
}

#[test]
fn rejects_payload_that_is_not_base64url() {
    assert!(decode_jwt("h.!!!!.s").is_err());
    assert!(decode_jwt("h.abc=.s").is_err());
    // a single leftover character cannot encode a byte
    assert!(decode_jwt("h.abcde.s").is_err());
}

#[test]
fn rejects_payload_that_is_not_a_claims_object() {
    // "not json"
    assert!(decode_jwt("h.bm90IGpzb24.s").is_err());
    // {"sub":"550e8400-e29b-41d4-a716-446655440000"} — no exp claim
    assert!(decode_jwt(
        "h.eyJzdWIiOiI1NTBlODQwMC1lMjliLTQxZDQtYTcxNi00NDY2NTU0NDAwMDAifQ.s"
    )
    .is_err());
}

#[test]
fn rejects_subject_that_is_not_a_uuid() {
    // {"sub":"not-a-uuid","exp":5}
    assert!(decode_jwt("h.eyJzdWIiOiJub3QtYS11dWlkIiwiZXhwIjo1fQ.s").is_err());
}

#[test]
fn rejects_expiration_out_of_range() {
    // {"sub":"550e8400-e29b-41d4-a716-446655440000","exp":99999999999}
    let token =
        "h.eyJzdWIiOiI1NTBlODQwMC1lMjliLTQxZDQtYTcxNi00NDY2NTU0NDAwMDAiLCJleHAiOjk5OTk5OTk5OTk5fQ.s";
    let err = decode_jwt(token).unwrap_err();
    assert_eq!(err, "malformed session token: expiration out of range");
}
