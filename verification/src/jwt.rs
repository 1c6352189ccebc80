//! Decoding of the raw session token into the session identity: the subject
//! identifier and the expiration timestamp carried by the token's payload.
//!
//! A raw session token is a compact three-segment string
//! `header.payload.signature`.  The payload segment is an unpadded base64url
//! encoding of a JSON object holding at least a `sub` claim (a UUID string)
//! and an `exp` claim (epoch seconds).  Decoding performs no signature or
//! expiry verification: the token was handed out by the server and is
//! trusted as stored.

use vstd::prelude::*;

use crate::base64url::{b64_decode, b64_decoded, b64_valid};

verus! {

/// The decoded session identity: the subject identifier (a UUID, kept as its
/// 128-bit value) and the expiration timestamp in epoch seconds.
#[derive(Clone, Copy, Debug, PartialEq, Eq, Structural)]
pub struct JWT {
    pub sub: u128,
    pub exp: i32,
}

/// The `sub` string and `exp` integer read from a token payload parsed as a
/// JSON object, or `None` when the payload is not such an object or lacks
/// either claim.  The JSON grammar is the JSON library's; the result is a
/// function of the payload bytes alone.
pub uninterp spec fn claims_of(payload: Seq<u8>) -> Option<(Seq<char>, int)>;

/// The 128-bit value a UUID string denotes, or `None` when the string is not
/// a well-formed textual UUID.  The accepted formats are the UUID library's;
/// the result is a function of the characters alone.
pub uninterp spec fn uuid_of(s: Seq<char>) -> Option<u128>;

/// Relies on `serde_json::from_slice` and `serde_json::Value`'s accessors:
/// parses the payload as a JSON object and reads its `sub` string and `exp`
/// integer, exactly the claims named by [`claims_of`].
#[verifier::external_body]
fn parse_claims(payload: &Vec<u8>) -> (r: Option<(String, i64)>)
    ensures
        match r {
            Some(c) => claims_of(payload@) == Some((c.0@, c.1 as int)),
            None => claims_of(payload@) is None,
        },
{
    let v: serde_json::Value = serde_json::from_slice(payload).ok()?;
    let sub = v.get("sub")?.as_str()?.to_owned();
    let exp = v.get("exp")?.as_i64()?;
    Some((sub, exp))
}

/// Relies on `uuid::Uuid::parse_str` and `uuid::Uuid::as_u128`: parses a
/// textual UUID into its 128-bit value, exactly the value named by
/// [`uuid_of`].
#[verifier::external_body]
fn parse_uuid(s: &str) -> (r: Option<u128>)
    ensures
        r == uuid_of(s@),
{
    match uuid::Uuid::parse_str(s) {
        Ok(u) => Some(u.as_u128()),
        Err(_) => None,
    }
}

/// The first position at or after `from` holding `c`, if any.
pub open spec fn find_char_from(s: Seq<char>, c: char, from: int) -> Option<int>
    decreases s.len() - from
        when 0 <= from
{
    if !(0 <= from < s.len()) {
        None
    } else if s[from] == c {
        Some(from)
    } else {
        find_char_from(s, c, from + 1)
    }
}

/// The payload segment of a compact token: the characters strictly between
/// the first and the second dot, provided the token has exactly two dots.
pub open spec fn jwt_payload(s: Seq<char>) -> Option<Seq<char>> {
    match find_char_from(s, '.', 0) {
        None => None,
        Some(i) => match find_char_from(s, '.', i + 1) {
            None => None,
            Some(j) => if find_char_from(s, '.', j + 1) is Some {
                None
            } else {
                Some(s.subrange(i + 1, j))
            },
        },
    }
}

/// The session identity a raw session token string decodes to, or `None`
/// when the string is malformed: not exactly three dot-separated segments,
/// a payload that is not well-formed base64url, payload JSON without the two
/// claims, a `sub` that is not a UUID, or an `exp` outside the timestamp
/// range.
pub open spec fn jwt_decoded(s: Seq<char>) -> Option<JWT> {
    match jwt_payload(s) {
        None => None,
        Some(p) => if !b64_valid(p) {
            None
        } else {
            match claims_of(b64_decoded(p)) {
                None => None,
                Some((sub, exp)) => match uuid_of(sub) {
                    None => None,
                    Some(u) => if i32::MIN <= exp <= i32::MAX {
                        Some(JWT { sub: u, exp: exp as i32 })
                    } else {
                        None
                    },
                },
            }
        },
    }
}

/// The first position at or after `from` holding a dot, if any.
fn find_dot(s: &str, from: usize) -> (r: Option<usize>)
    requires
        from <= s@.len(),
    ensures
        match r {
            Some(k) => find_char_from(s@, '.', from as int) == Some(k as int) && from <= k
                < s@.len(),
            None => find_char_from(s@, '.', from as int) is None,
        },
{
    let n = s.unicode_len();
    let mut k: usize = from;
    while k < n
        invariant
            from <= k <= n,
            n == s@.len(),
            find_char_from(s@, '.', from as int) == find_char_from(s@, '.', k as int),
        decreases n - k,
    {
        if s.get_char(k) == '.' {
            return Some(k);
        }
        k = k + 1;
    }
    None
}

/// Decodes a raw session token string into the session identity: `Ok`
/// exactly on the strings [`jwt_decoded`] accepts, and then the identity it
/// names; `Err` carries a description of the defect.
pub fn decode_jwt(jwt: &str) -> (r: Result<JWT, String>)
    ensures
        match r {
            Ok(j) => jwt_decoded(jwt@) == Some(j),
            Err(_) => jwt_decoded(jwt@) is None,
        },
{
    // Brings the character count into scope: the dot positions found below
    // are bounded by it, so stepping past one cannot overflow.
    let _len: usize = jwt.unicode_len();
    let i = match find_dot(jwt, 0) {
        Some(i) => i,
        None => return Err(String::from_str("malformed session token: no payload segment")),
    };
    let j = match find_dot(jwt, i + 1) {
        Some(j) => j,
        None => return Err(String::from_str("malformed session token: no signature segment")),
    };
    if find_dot(jwt, j + 1).is_some() {
        return Err(String::from_str("malformed session token: too many segments"));
    }
    let payload = jwt.substring_char(i + 1, j);
    let bytes = match b64_decode(payload) {
        Some(b) => b,
        None => return Err(String::from_str("malformed session token: payload is not base64url")),
    };
    let claims = match parse_claims(&bytes) {
        Some(c) => c,
        None => return Err(String::from_str("malformed session token: missing claims")),
    };
    let sub = match parse_uuid(claims.0.as_str()) {
        Some(u) => u,
        None => return Err(String::from_str("malformed session token: subject is not a UUID")),
    };
    if claims.1 < i32::MIN as i64 || claims.1 > i32::MAX as i64 {
        return Err(String::from_str("malformed session token: expiration out of range"));
    }
    Ok(JWT { sub, exp: claims.1 as i32 })
}

} // verus!
