use vstd::prelude::*;
use crate::claims::{Claims, ClaimsView};
use crate::error::AuthError;

verus! {

#[verifier::external_type_specification]
#[verifier::external_body]
pub struct ExJwtError(jsonwebtoken::errors::Error);

#[verifier::external_type_specification]
#[verifier::external_body]
pub struct ExJsonValue(serde_json::Value);

#[verifier::external_type_specification]
#[verifier::external_body]
#[verifier::reject_recursive_types(K)]
#[verifier::reject_recursive_types(V)]
pub struct ExJsonMap<K, V>(serde_json::Map<K, V>);

/// The HS256-signed JSON Web Token that jsonwebtoken produces for `claims`
/// under `secret`, with the default header.
pub uninterp spec fn jwt_hs256_of(claims: ClaimsView, secret: Seq<u8>) -> Seq<char>;

/// What jsonwebtoken::decode makes of `token` under `secret` with HS256 and
/// no time checks: the string and `u64` entries of the decoded claims
/// object, or `Err(true)` for a signature mismatch and `Err(false)` for any
/// other failure (structure, algorithm, encoding, JSON).
pub uninterp spec fn hs256_decode_of(token: Seq<char>, secret: Seq<u8>) -> Result<
    (Map<Seq<char>, Seq<char>>, Map<Seq<char>, u64>),
    bool,
>;

/// The entries of a decoded claims object whose value is a JSON string.
pub uninterp spec fn json_string_entries(m: serde_json::Map<String, serde_json::Value>) -> Map<
    Seq<char>,
    Seq<char>,
>;

/// The entries of a decoded claims object whose value is a number that fits in `u64`.
pub uninterp spec fn json_u64_entries(m: serde_json::Map<String, serde_json::Value>) -> Map<
    Seq<char>,
    u64,
>;

/// The string-valued claims that a token for `c` carries.
pub open spec fn string_claims(c: ClaimsView) -> Map<Seq<char>, Seq<char>> {
    map![
        "sub"@ => c.sub,
        "user_id"@ => c.user_id,
        "email"@ => c.email,
        "role"@ => c.role,
    ]
}

/// The numeric claims that a token for `c` carries.
pub open spec fn numeric_claims(c: ClaimsView) -> Map<Seq<char>, u64> {
    map!["exp"@ => c.exp, "iat"@ => c.iat]
}

/// A character of the unpadded base64url alphabet.
pub open spec fn is_base64url_char(c: char) -> bool {
    ('A' <= c <= 'Z') || ('a' <= c <= 'z') || ('0' <= c <= '9') || c == '-' || c == '_'
}

/// `t` is three non-empty base64url segments joined by dots:
/// header, payload and signature.
pub open spec fn jwt_shaped(t: Seq<char>) -> bool {
    exists|i: int, j: int|
        #![trigger t[i], t[j]]
        0 < i && i + 1 < j && j + 1 < t.len() && t[i] == '.' && t[j] == '.' && forall|k: int|
            0 <= k < t.len() && k != i && k != j ==> is_base64url_char(#[trigger] t[k])
}

/// Relies on jsonwebtoken::encode with the default (HS256) header and an
/// HMAC key made from `secret`; the claims are serialised as a JSON object
/// with the six claim names. With an HMAC key, an HS256 header and a map of
/// strings and integers it does not fail, and its output is a function of
/// claims and secret. The token is the base64url (unpadded) header, payload
/// and signature joined by dots.
#[verifier::external_body]
fn jwt_encode(c: &Claims, secret: &[u8]) -> (r: Option<String>)
    ensures
        r is Some,
        r matches Some(t) ==> t@ == jwt_hs256_of(c@, secret@),
        r matches Some(t) ==> jwt_shaped(t@),
{
    let mut m = serde_json::Map::new();
    m.insert("sub".to_string(), c.sub.clone().into());
    m.insert("exp".to_string(), c.exp.into());
    m.insert("iat".to_string(), c.iat.into());
    m.insert("user_id".to_string(), c.user_id.clone().into());
    m.insert("email".to_string(), c.email.clone().into());
    m.insert("role".to_string(), c.role.clone().into());
    let key = jsonwebtoken::EncodingKey::from_secret(secret);
    jsonwebtoken::encode(&jsonwebtoken::Header::default(), &m, &key).ok()
}

/// Relies on jsonwebtoken::decode with HS256 and an HMAC key made from
/// `secret`, time checks and required claims switched off: it splits the
/// token, checks the algorithm and the signature and parses the payload as a
/// JSON object; an error is reported as whether its kind is InvalidSignature.
/// A token that jsonwebtoken::encode made for the same secret decodes to
/// the object it was made from.
#[verifier::external_body]
fn jwt_decode(token: &str, secret: &[u8]) -> (r: Result<
    serde_json::Map<String, serde_json::Value>,
    bool,
>)
    ensures
        match r {
            Ok(m) => hs256_decode_of(token@, secret@) == Ok::<
                (Map<Seq<char>, Seq<char>>, Map<Seq<char>, u64>),
                bool,
            >((json_string_entries(m), json_u64_entries(m))),
            Err(b) => hs256_decode_of(token@, secret@) == Err::<
                (Map<Seq<char>, Seq<char>>, Map<Seq<char>, u64>),
                bool,
            >(b),
        },
        match r {
            Ok(m) => forall|c: ClaimsView|
                #![trigger jwt_hs256_of(c, secret@)]
                token@ == jwt_hs256_of(c, secret@) ==> json_string_entries(m) == string_claims(c)
                    && json_u64_entries(m) == numeric_claims(c),
            Err(_) => forall|c: ClaimsView|
                #![trigger jwt_hs256_of(c, secret@)]
                token@ != jwt_hs256_of(c, secret@),
        },
{
    let mut v = jsonwebtoken::Validation::new(jsonwebtoken::Algorithm::HS256);
    v.validate_exp = false;
    v.required_spec_claims.clear();
    let key = jsonwebtoken::DecodingKey::from_secret(secret);
    jsonwebtoken::decode(token, &key, &v).map(|d| d.claims).map_err(
        |e| matches!(e.kind(), jsonwebtoken::errors::ErrorKind::InvalidSignature),
    )
}

/// Relies on serde_json::Map::get: the value under `key` where it is a string.
#[verifier::external_body]
fn json_str(m: &serde_json::Map<String, serde_json::Value>, key: &str) -> (r: Option<String>)
    ensures
        match r {
            Some(s) => json_string_entries(*m).contains_key(key@) && json_string_entries(
                *m,
            )[key@] == s@,
            None => !json_string_entries(*m).contains_key(key@),
        },
{
    match m.get(key) {
        Some(serde_json::Value::String(s)) => Some(s.clone()),
        _ => None,
    }
}

/// Relies on serde_json::Map::get and serde_json::Value::as_u64: the value
/// under `key` where it is a number that fits in `u64`.
#[verifier::external_body]
fn json_u64(m: &serde_json::Map<String, serde_json::Value>, key: &str) -> (r: Option<u64>)
    ensures
        match r {
            Some(n) => json_u64_entries(*m).contains_key(key@) && json_u64_entries(*m)[key@] == n,
            None => !json_u64_entries(*m).contains_key(key@),
        },
{
    match m.get(key) {
        Some(v) => v.as_u64(),
        None => None,
    }
}

/// Signs `claims` with `secret` into an HS256 token. An empty secret is refused.
pub fn sign_token(claims: &Claims, secret: &[u8]) -> (r: Result<String, AuthError>)
    ensures
        secret@.len() == 0 ==> r == Err::<String, AuthError>(AuthError::SigningError),
        secret@.len() > 0 ==> (r matches Ok(t) && t@ == jwt_hs256_of(claims@, secret@)),
        r matches Ok(t) ==> jwt_shaped(t@),
{
    if secret.len() == 0 {
        return Err(AuthError::token_creation_error());
    }
    match jwt_encode(claims, secret) {
        Some(t) => Ok(t),
        None => Err(AuthError::token_creation_error()),
    }
}

/// The claims read out of decoded string and numeric entries, where all six are there.
pub open spec fn claims_of_entries(
    strs: Map<Seq<char>, Seq<char>>,
    nums: Map<Seq<char>, u64>,
) -> Option<ClaimsView> {
    if strs.contains_key("sub"@) && nums.contains_key("exp"@) && nums.contains_key("iat"@)
        && strs.contains_key("user_id"@) && strs.contains_key("email"@) && strs.contains_key(
        "role"@,
    ) {
        Some(
            ClaimsView {
                sub: strs["sub"@],
                exp: nums["exp"@],
                iat: nums["iat"@],
                user_id: strs["user_id"@],
                email: strs["email"@],
                role: strs["role"@],
            },
        )
    } else {
        None
    }
}

/// The outcome of verifying a token whose decoding gave `decoded`, at time `now`.
pub open spec fn verify_outcome(
    decoded: Result<(Map<Seq<char>, Seq<char>>, Map<Seq<char>, u64>), bool>,
    now: u64,
) -> Result<ClaimsView, AuthError> {
    match decoded {
        Err(bad_signature) => if bad_signature {
            Err(AuthError::InvalidSignature)
        } else {
            Err(AuthError::MalformedToken)
        },
        Ok((strs, nums)) => match claims_of_entries(strs, nums) {
            None => Err(AuthError::MalformedToken),
            Some(c) => if now < c.exp {
                Ok(c)
            } else {
                Err(AuthError::Expired)
            },
        },
    }
}

/// The outcome of verifying `token` under `secret` at time `now`.
pub open spec fn verify_spec(token: Seq<char>, secret: Seq<u8>, now: u64) -> Result<
    ClaimsView,
    AuthError,
> {
    verify_outcome(hs256_decode_of(token, secret), now)
}

/// `r` is the executable form of the outcome `o`.
pub open spec fn claims_result_is(r: Result<Claims, AuthError>, o: Result<ClaimsView, AuthError>) -> bool {
    match r {
        Ok(x) => o == Ok::<ClaimsView, AuthError>(x@),
        Err(e) => o == Err::<ClaimsView, AuthError>(e),
    }
}

/// The claims that a token for `c` carries are read back as `c`.
proof fn lemma_claims_of_entries_round_trip(c: ClaimsView)
    ensures
        claims_of_entries(string_claims(c), numeric_claims(c)) == Some(c),
{
    reveal_strlit("sub");
    reveal_strlit("exp");
    reveal_strlit("iat");
    reveal_strlit("user_id");
    reveal_strlit("email");
    reveal_strlit("role");
    assert("sub"@.len() == 3 && "user_id"@.len() == 7);
    assert("email"@.len() == 5 && "role"@.len() == 4);
    assert("sub"@ != "user_id"@ && "sub"@ != "email"@ && "sub"@ != "role"@);
    assert("user_id"@ != "email"@ && "user_id"@ != "role"@);
    assert("exp"@[0] == 'e' && "iat"@[0] == 'i');
    assert("exp"@ != "iat"@);
    assert(string_claims(c)["sub"@] == c.sub);
    assert(string_claims(c)["user_id"@] == c.user_id);
    assert(string_claims(c)["email"@] == c.email);
    assert(string_claims(c)["role"@] == c.role);
    assert(numeric_claims(c)["exp"@] == c.exp);
    assert(numeric_claims(c)["iat"@] == c.iat);
}

/// Reads the six claims out of a decoded claims object.
fn claims_from_json(m: &serde_json::Map<String, serde_json::Value>) -> (r: Option<Claims>)
    ensures
        match claims_of_entries(json_string_entries(*m), json_u64_entries(*m)) {
            Some(c) => r matches Some(x) && x@ == c,
            None => r is None,
        },
{
    let sub = json_str(m, "sub");
    let exp = json_u64(m, "exp");
    let iat = json_u64(m, "iat");
    let user_id = json_str(m, "user_id");
    let email = json_str(m, "email");
    let role = json_str(m, "role");
    match (sub, exp, iat, user_id, email, role) {
        (Some(sub), Some(exp), Some(iat), Some(user_id), Some(email), Some(role)) => Some(
            Claims { sub, exp, iat, user_id, email, role },
        ),
        _ => None,
    }
}

/// Verifies `token` against `secret` at time `now` and returns its claims.
/// A signature mismatch is `InvalidSignature`; a token that does not decode,
/// or lacks one of the six claims, is `MalformedToken`; one whose expiry is
/// not after `now` is `Expired`. A token that `sign_token` made with the
/// same secret yields exactly the claims it was made from.
pub fn verify_token(token: &str, secret: &[u8], now: u64) -> (r: Result<Claims, AuthError>)
    ensures
        claims_result_is(r, verify_spec(token@, secret@, now)),
        forall|c: ClaimsView|
            #![trigger jwt_hs256_of(c, secret@)]
            token@ == jwt_hs256_of(c, secret@) ==> if now < c.exp {
                r matches Ok(x) && x@ == c
            } else {
                r == Err::<Claims, AuthError>(AuthError::Expired)
            },
{
    match jwt_decode(token, secret) {
        Err(bad_signature) => {
            if bad_signature {
                Err(AuthError::InvalidSignature)
            } else {
                Err(AuthError::MalformedToken)
            }
        },
        Ok(m) => {
            proof {
                assert forall|c: ClaimsView|
                    #![trigger jwt_hs256_of(c, secret@)]
                    token@ == jwt_hs256_of(c, secret@) implies claims_of_entries(
                        json_string_entries(m),
                        json_u64_entries(m),
                    ) == Some(c) by {
                    lemma_claims_of_entries_round_trip(c);
                }
            }
            match claims_from_json(&m) {
                None => Err(AuthError::MalformedToken),
                Some(c) => {
                    if now < c.exp {
                        Ok(c)
                    } else {
                        Err(AuthError::Expired)
                    }
                },
            }
        },
    }
}

} // verus!
