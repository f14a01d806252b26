use vstd::prelude::*;
use crate::error::AuthError;

verus! {

/// The default validity window of an issued token: 24 hours, in seconds.
pub const TOKEN_VALIDITY_SECS: u64 = 86400;

/// A stored credential: who the user is and the hash of their password.
#[derive(Debug, Clone)]
pub struct CredentialRecord {
    pub id: String,
    pub email: String,
    pub first_name: String,
    pub last_name: String,
    pub password_hash: String,
    pub role: String,
}

/// What a client may see of a credential record: everything but the hash.
#[derive(Debug, Clone)]
pub struct UserInfo {
    pub id: String,
    pub email: String,
    pub first_name: String,
    pub last_name: String,
    pub role: String,
}

/// The facts a token carries. Times are seconds since the Unix epoch.
#[derive(Debug, Clone)]
pub struct Claims {
    pub sub: String,
    pub exp: u64,
    pub iat: u64,
    pub user_id: String,
    pub email: String,
    pub role: String,
}

/// The mathematical value of [`Claims`].
pub struct ClaimsView {
    pub sub: Seq<char>,
    pub exp: u64,
    pub iat: u64,
    pub user_id: Seq<char>,
    pub email: Seq<char>,
    pub role: Seq<char>,
}

impl View for Claims {
    type V = ClaimsView;

    open spec fn view(&self) -> ClaimsView {
        ClaimsView {
            sub: self.sub@,
            exp: self.exp,
            iat: self.iat,
            user_id: self.user_id@,
            email: self.email@,
            role: self.role@,
        }
    }
}

/// Claims that may be signed: a non-empty identity and an expiry after issue.
pub open spec fn valid_claims(c: ClaimsView) -> bool {
    &&& c.sub.len() > 0
    &&& c.user_id.len() > 0
    &&& c.email.len() > 0
    &&& c.iat < c.exp
}

/// The identity of `record` is fit to be signed.
pub open spec fn identity_ok(record: CredentialRecord) -> bool {
    record.id@.len() > 0 && record.email@.len() > 0
}

/// The claims issued for `record` at time `now`, valid for `window` seconds.
/// The subject is the identifier the user signs in with, their email.
pub open spec fn claims_for(record: CredentialRecord, now: u64, window: u64) -> ClaimsView {
    ClaimsView {
        sub: record.email@,
        exp: (now + window) as u64,
        iat: now,
        user_id: record.id@,
        email: record.email@,
        role: record.role@,
    }
}

/// The public view of `record`.
pub open spec fn user_info_of(record: CredentialRecord, u: UserInfo) -> bool {
    &&& u.id@ == record.id@
    &&& u.email@ == record.email@
    &&& u.first_name@ == record.first_name@
    &&& u.last_name@ == record.last_name@
    &&& u.role@ == record.role@
}

/// Builds the claims for `record` at time `now`, expiring `window` seconds
/// later. A record with an empty identifier or email is refused.
pub fn build_claims(record: &CredentialRecord, now: u64, window: u64) -> (r: Result<
    Claims,
    AuthError,
>)
    requires
        window > 0,
        now + window <= u64::MAX,
    ensures
        identity_ok(*record) ==> (r matches Ok(c) && c@ == claims_for(*record, now, window)),
        !identity_ok(*record) ==> r == Err::<Claims, AuthError>(AuthError::MalformedRequest),
        r matches Ok(c) ==> valid_claims(c@),
{
    if record.id.as_str().is_empty() || record.email.as_str().is_empty() {
        return Err(AuthError::MalformedRequest);
    }
    Ok(
        Claims {
            sub: record.email.clone(),
            exp: now + window,
            iat: now,
            user_id: record.id.clone(),
            email: record.email.clone(),
            role: record.role.clone(),
        },
    )
}

/// The view of `record` that may be shown to a client.
pub fn public_user(record: &CredentialRecord) -> (r: UserInfo)
    ensures
        user_info_of(*record, r),
{
    UserInfo {
        id: record.id.clone(),
        email: record.email.clone(),
        first_name: record.first_name.clone(),
        last_name: record.last_name.clone(),
        role: record.role.clone(),
    }
}

} // verus!
