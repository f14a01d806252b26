use vstd::prelude::*;

verus! {

/// Every way an authentication request can fail.
#[derive(Debug, Clone, Copy, PartialEq, Eq, Structural)]
pub enum AuthError {
    /// The password does not match the stored hash.
    InvalidCredentials,
    /// No credential record exists for the identifier.
    UserNotFound,
    /// The identity to be signed is malformed (an empty identifier).
    MalformedRequest,
    /// The authorization header does not carry a `Bearer ` token.
    MalformedHeader,
    /// The token is not a well-formed signed token, or its claims are unreadable.
    MalformedToken,
    /// The token's signature does not match its header and payload.
    InvalidSignature,
    /// The token's expiry time has passed.
    Expired,
    /// A token could not be produced.
    SigningError,
    /// A password hash could not be produced.
    HashingError,
}

impl AuthError {
    /// The error reported when a token cannot be created.
    pub fn token_creation_error() -> (r: Self)
        ensures
            r == AuthError::SigningError,
    {
        AuthError::SigningError
    }

    /// A short human-readable description of the error.
    pub fn message(&self) -> (r: String)
        ensures
            r@ == error_text(*self),
    {
        match self {
            AuthError::InvalidCredentials => "Invalid credentials".to_owned(),
            AuthError::UserNotFound => "User not found".to_owned(),
            AuthError::MalformedRequest => "Malformed request".to_owned(),
            AuthError::MalformedHeader => "Invalid authorization header format".to_owned(),
            AuthError::MalformedToken => "Malformed token".to_owned(),
            AuthError::InvalidSignature => "Invalid token signature".to_owned(),
            AuthError::Expired => "Token expired".to_owned(),
            AuthError::SigningError => "Failed to create token".to_owned(),
            AuthError::HashingError => "Failed to hash password".to_owned(),
        }
    }
}

/// The description reported for each error.
pub open spec fn error_text(e: AuthError) -> Seq<char> {
    match e {
        AuthError::InvalidCredentials => "Invalid credentials"@,
        AuthError::UserNotFound => "User not found"@,
        AuthError::MalformedRequest => "Malformed request"@,
        AuthError::MalformedHeader => "Invalid authorization header format"@,
        AuthError::MalformedToken => "Malformed token"@,
        AuthError::InvalidSignature => "Invalid token signature"@,
        AuthError::Expired => "Token expired"@,
        AuthError::SigningError => "Failed to create token"@,
        AuthError::HashingError => "Failed to hash password"@,
    }
}

} // verus!
