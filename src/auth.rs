use vstd::prelude::*;
use vstd::string::StringSliceAdditionalSpecFns;
use vstd::utf8::*;
use crate::claims::{
    build_claims, claims_for, identity_ok, public_user, user_info_of, Claims, ClaimsView,
    CredentialRecord, UserInfo,
};
use crate::error::AuthError;
use crate::hasher::{hash_password, password_matches, verify_password, MAX_COST, MIN_COST};
use crate::token::{claims_result_is, jwt_hs256_of, jwt_shaped, sign_token, verify_spec, verify_token};

verus! {

/// The bytes of the `Bearer ` scheme prefix of an authorization header.
pub open spec fn bearer_prefix() -> Seq<u8> {
    seq![66u8, 101u8, 97u8, 114u8, 101u8, 114u8, 32u8]
}

/// `header` starts with the `Bearer ` prefix.
pub open spec fn has_bearer_prefix(header: Seq<u8>) -> bool {
    header.len() >= 7 && header.subrange(0, 7) == bearer_prefix()
}

/// In valid UTF-8, the end of a run of ASCII bytes at the start is a character boundary.
proof fn lemma_ascii_prefix_boundary(bytes: Seq<u8>, k: int)
    requires
        valid_utf8(bytes),
        0 <= k <= bytes.len(),
        forall|i: int| 0 <= i < k ==> is_leading_byte_width_1(#[trigger] bytes[i]),
    ensures
        is_char_boundary(bytes, k),
    decreases k,
{
    if k > 0 {
        let rest = pop_first_scalar(bytes);
        assert(length_of_first_scalar(bytes) == 1);
        assert forall|i: int| 0 <= i < k - 1 implies is_leading_byte_width_1(#[trigger] rest[i]) by {
            assert(rest[i] == bytes[i + 1]);
        }
        lemma_ascii_prefix_boundary(rest, k - 1);
    }
}

/// Service configuration: the signing secret and the validity window of
/// issued tokens, in seconds.
pub struct AuthConfig {
    pub secret: Vec<u8>,
    pub validity_secs: u64,
}

impl AuthConfig {
    /// A usable configuration: tokens live for a positive time.
    pub open spec fn wf(&self) -> bool {
        self.validity_secs > 0
    }
}

/// A successful login or registration: the issued token and the public
/// view of the user.
pub struct AuthSuccess {
    pub token: String,
    pub user: UserInfo,
}

/// A registration request.
pub struct RegisterRequest {
    pub email: String,
    pub password: String,
    pub first_name: String,
    pub last_name: String,
}

/// Takes the token out of an authorization header of the form `Bearer <token>`.
pub fn bearer_token(header: &str) -> (r: Result<&str, AuthError>)
    ensures
        has_bearer_prefix(header.spec_bytes()) ==> (r matches Ok(t) && t.spec_bytes()
            == header.spec_bytes().subrange(7, header.spec_bytes().len() as int)),
        !has_bearer_prefix(header.spec_bytes()) ==> r == Err::<&str, AuthError>(
            AuthError::MalformedHeader,
        ),
{
    let b = header.as_bytes();
    if b.len() < 7 || b[0] != 66u8 || b[1] != 101u8 || b[2] != 97u8 || b[3] != 114u8 || b[4]
        != 101u8 || b[5] != 114u8 || b[6] != 32u8 {
        proof {
            if has_bearer_prefix(header.spec_bytes()) {
                assert(header.spec_bytes().subrange(0, 7)[0] == header.spec_bytes()[0]);
                assert(header.spec_bytes().subrange(0, 7)[6] == header.spec_bytes()[6]);
                assert(header.spec_bytes().subrange(0, 7)[1] == header.spec_bytes()[1]);
                assert(header.spec_bytes().subrange(0, 7)[2] == header.spec_bytes()[2]);
                assert(header.spec_bytes().subrange(0, 7)[3] == header.spec_bytes()[3]);
                assert(header.spec_bytes().subrange(0, 7)[4] == header.spec_bytes()[4]);
                assert(header.spec_bytes().subrange(0, 7)[5] == header.spec_bytes()[5]);
            }
        }
        return Err(AuthError::MalformedHeader);
    }
    proof {
        let bytes = header.spec_bytes();
        assert(bytes.subrange(0, 7) =~= bearer_prefix());
        broadcast use encode_utf8_valid_utf8;
        assert(valid_utf8(bytes));
        lemma_ascii_prefix_boundary(bytes, 7);
    }
    let (_, t) = header.split_at(7);
    Ok(t)
}

/// What a request that got as far as issuing a token for `record` returns:
/// the signed claims of `record` and its public view, or the reason no token
/// was issued.
pub open spec fn issue_outcome(
    record: CredentialRecord,
    config: AuthConfig,
    now: u64,
    r: Result<AuthSuccess, AuthError>,
) -> bool {
    match r {
        Ok(s) => {
            &&& identity_ok(record)
            &&& config.secret@.len() > 0
            &&& s.token@ == jwt_hs256_of(
                claims_for(record, now, config.validity_secs),
                config.secret@,
            )
            &&& user_info_of(record, s.user)
        },
        Err(e) => if !identity_ok(record) {
            e == AuthError::MalformedRequest
        } else {
            e == AuthError::SigningError && config.secret@.len() == 0
        },
    }
}

/// Builds and signs the claims of `user` at time `now`.
pub fn create_jwt_token(user: &CredentialRecord, config: &AuthConfig, now: u64) -> (r: Result<
    String,
    AuthError,
>)
    requires
        config.wf(),
        now + config.validity_secs <= u64::MAX,
    ensures
        !identity_ok(*user) ==> r == Err::<String, AuthError>(AuthError::MalformedRequest),
        identity_ok(*user) && config.secret@.len() == 0 ==> r == Err::<String, AuthError>(
            AuthError::SigningError,
        ),
        identity_ok(*user) && config.secret@.len() > 0 ==> (r matches Ok(t) && t@
            == jwt_hs256_of(claims_for(*user, now, config.validity_secs), config.secret@)),
        r matches Ok(t) ==> jwt_shaped(t@),
{
    let claims = build_claims(user, now, config.validity_secs)?;
    sign_token(&claims, config.secret.as_slice())
}

/// Verifies `token` with the configured secret at time `now`.
pub fn verify_jwt_token(token: &str, config: &AuthConfig, now: u64) -> (r: Result<
    Claims,
    AuthError,
>)
    ensures
        claims_result_is(r, verify_spec(token@, config.secret@, now)),
        forall|c: ClaimsView|
            #![trigger jwt_hs256_of(c, config.secret@)]
            token@ == jwt_hs256_of(c, config.secret@) ==> if now < c.exp {
                r matches Ok(x) && x@ == c
            } else {
                r == Err::<Claims, AuthError>(AuthError::Expired)
            },
{
    verify_token(token, config.secret.as_slice(), now)
}

/// Issues a token for `record` and pairs it with the record's public view.
fn issue(record: &CredentialRecord, config: &AuthConfig, now: u64) -> (r: Result<
    AuthSuccess,
    AuthError,
>)
    requires
        config.wf(),
        now + config.validity_secs <= u64::MAX,
    ensures
        issue_outcome(*record, *config, now, r),
{
    let token = create_jwt_token(record, config, now)?;
    Ok(AuthSuccess { token, user: public_user(record) })
}

/// Logs in with `password` against `found`, the credential record that the
/// store holds for the requested identifier, if any.
pub fn handle_login(
    found: Option<CredentialRecord>,
    password: &str,
    config: &AuthConfig,
    now: u64,
) -> (r: Result<AuthSuccess, AuthError>)
    requires
        config.wf(),
        now + config.validity_secs <= u64::MAX,
    ensures
        match found {
            None => r == Err::<AuthSuccess, AuthError>(AuthError::UserNotFound),
            Some(rec) => if password_matches(password@, rec.password_hash@) {
                issue_outcome(rec, *config, now, r)
            } else {
                r == Err::<AuthSuccess, AuthError>(AuthError::InvalidCredentials)
            },
        },
{
    match found {
        None => Err(AuthError::UserNotFound),
        Some(rec) => {
            if verify_password(password, rec.password_hash.as_str()) {
                issue(&rec, config, now)
            } else {
                Err(AuthError::InvalidCredentials)
            }
        },
    }
}

/// The claims issued to a newly registered user `user_id` with `email`.
pub open spec fn registration_claims(
    user_id: Seq<char>,
    email: Seq<char>,
    now: u64,
    window: u64,
) -> ClaimsView {
    ClaimsView {
        sub: email,
        exp: (now + window) as u64,
        iat: now,
        user_id: user_id,
        email: email,
        role: "user"@,
    }
}

/// The credential record of a new user; the role is `user`.
pub fn new_user_record(req: &RegisterRequest, user_id: String, password_hash: String) -> (r:
    CredentialRecord)
    ensures
        r.id == user_id,
        r.email@ == req.email@,
        r.first_name@ == req.first_name@,
        r.last_name@ == req.last_name@,
        r.password_hash == password_hash,
        r.role@ == "user"@,
{
    CredentialRecord {
        id: user_id,
        email: req.email.clone(),
        first_name: req.first_name.clone(),
        last_name: req.last_name.clone(),
        password_hash,
        role: "user".to_owned(),
    }
}

/// A completed registration: the new credential record, for the store to
/// keep, and the token and public view handed to the client.
pub struct Registration {
    pub record: CredentialRecord,
    pub success: AuthSuccess,
}

/// What a registration of `req` under `user_id` returns at time `now`.
pub open spec fn registration_outcome(
    req: RegisterRequest,
    user_id: Seq<char>,
    config: AuthConfig,
    now: u64,
    r: Result<Registration, AuthError>,
) -> bool {
    match r {
        Ok(g) => {
            &&& user_id.len() > 0
            &&& req.email@.len() > 0
            &&& config.secret@.len() > 0
            &&& g.record.id@ == user_id
            &&& g.record.email@ == req.email@
            &&& g.record.first_name@ == req.first_name@
            &&& g.record.last_name@ == req.last_name@
            &&& g.record.role@ == "user"@
            &&& g.success.token@ == jwt_hs256_of(
                registration_claims(user_id, req.email@, now, config.validity_secs),
                config.secret@,
            )
            &&& user_info_of(g.record, g.success.user)
        },
        Err(e) => if !(user_id.len() > 0 && req.email@.len() > 0) {
            e == AuthError::MalformedRequest
        } else {
            e == AuthError::SigningError && config.secret@.len() == 0
        },
    }
}

/// Registers a user under a given identifier and password hash, and issues
/// their first token.
pub fn register_with(
    req: &RegisterRequest,
    user_id: String,
    password_hash: String,
    config: &AuthConfig,
    now: u64,
) -> (r: Result<Registration, AuthError>)
    requires
        config.wf(),
        now + config.validity_secs <= u64::MAX,
    ensures
        registration_outcome(*req, user_id@, *config, now, r),
        r matches Ok(g) ==> g.record.password_hash == password_hash,
{
    let record = new_user_record(req, user_id, password_hash);
    let r = issue(&record, config, now);
    proof {
        assert(claims_for(record, now, config.validity_secs) == registration_claims(
            record.id@,
            req.email@,
            now,
            config.validity_secs,
        ));
    }
    match r {
        Ok(success) => Ok(Registration { record, success }),
        Err(e) => Err(e),
    }
}

/// A character of lowercase hexadecimal.
pub open spec fn is_lower_hex(c: char) -> bool {
    ('0' <= c <= '9') || ('a' <= c <= 'f')
}

/// The hyphenated lowercase text of a version-4 UUID:
/// `xxxxxxxx-xxxx-4xxx-yxxx-xxxxxxxxxxxx`, with `y` one of `8`, `9`, `a`, `b`.
pub open spec fn is_uuid_v4_text(s: Seq<char>) -> bool {
    &&& s.len() == 36
    &&& forall|i: int|
        0 <= i < 36 ==> if i == 8 || i == 13 || i == 18 || i == 23 {
            s[i] == '-'
        } else {
            is_lower_hex(#[trigger] s[i])
        }
    &&& s[14] == '4'
    &&& (s[19] == '8' || s[19] == '9' || s[19] == 'a' || s[19] == 'b')
}

/// Relies on uuid::Uuid::new_v4 and its hyphenated lowercase text form: a
/// fresh random version-4 identifier.
#[verifier::external_body]
fn new_user_id() -> (r: String)
    ensures
        is_uuid_v4_text(r@),
{
    uuid::Uuid::new_v4().to_string()
}

/// Registers a new user: hashes the password at work factor `cost`, picks a
/// fresh random user id, builds the credential record and issues the user's
/// first token.
pub fn handle_register(req: &RegisterRequest, cost: u32, config: &AuthConfig, now: u64) -> (r:
    Result<Registration, AuthError>)
    requires
        config.wf(),
        now + config.validity_secs <= u64::MAX,
    ensures
        !(MIN_COST <= cost <= MAX_COST) ==> r == Err::<Registration, AuthError>(
            AuthError::HashingError,
        ),
        match r {
            Ok(g) => {
                &&& registration_outcome(*req, g.record.id@, *config, now, r)
                &&& is_uuid_v4_text(g.record.id@)
                &&& password_matches(req.password@, g.record.password_hash@)
            },
            Err(e) => e == AuthError::HashingError || (e == AuthError::MalformedRequest
                && req.email@.len() == 0) || (e == AuthError::SigningError && config.secret@.len()
                == 0),
        },
{
    let password_hash = hash_password(req.password.as_str(), cost)?;
    let user_id = new_user_id();
    register_with(req, user_id, password_hash, config, now)
}

/// Verifies the token carried by an authorization header `Bearer <token>`.
pub fn handle_verify_token(header: &str, config: &AuthConfig, now: u64) -> (r: Result<
    Claims,
    AuthError,
>)
    ensures
        !has_bearer_prefix(header.spec_bytes()) ==> r == Err::<Claims, AuthError>(
            AuthError::MalformedHeader,
        ),
        has_bearer_prefix(header.spec_bytes()) ==> claims_result_is(
            r,
            verify_spec(
                decode_utf8(header.spec_bytes().subrange(7, header.spec_bytes().len() as int)),
                config.secret@,
                now,
            ),
        ),
        forall|c: ClaimsView|
            #![trigger jwt_hs256_of(c, config.secret@)]
            header.spec_bytes() == bearer_prefix() + encode_utf8(jwt_hs256_of(c, config.secret@))
                ==> if now < c.exp {
                r matches Ok(x) && x@ == c
            } else {
                r == Err::<Claims, AuthError>(AuthError::Expired)
            },
{
    let token = match bearer_token(header) {
        Ok(t) => t,
        Err(e) => {
            proof {
                assert forall|c: ClaimsView|
                    #![trigger jwt_hs256_of(c, config.secret@)]
                    header.spec_bytes() == bearer_prefix() + encode_utf8(
                        jwt_hs256_of(c, config.secret@),
                    ) implies has_bearer_prefix(header.spec_bytes()) by {
                    let j = jwt_hs256_of(c, config.secret@);
                    assert((bearer_prefix() + encode_utf8(j)).subrange(0, 7) =~= bearer_prefix());
                }
            }
            return Err(e);
        },
    };
    proof {
        broadcast use encode_utf8_decode_utf8;

        assert(token@ == decode_utf8(
            header.spec_bytes().subrange(7, header.spec_bytes().len() as int),
        ));

        assert forall|c: ClaimsView|
            #![trigger jwt_hs256_of(c, config.secret@)]
            header.spec_bytes() == bearer_prefix() + encode_utf8(
                jwt_hs256_of(c, config.secret@),
            ) implies token@ == jwt_hs256_of(c, config.secret@) by {
            let j = jwt_hs256_of(c, config.secret@);
            assert(header.spec_bytes().subrange(7, header.spec_bytes().len() as int)
                =~= encode_utf8(j));
            assert(decode_utf8(encode_utf8(token@)) == decode_utf8(encode_utf8(j)));
        }
    }
    verify_jwt_token(token, config, now)
}

} // verus!
