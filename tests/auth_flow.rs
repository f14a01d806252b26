use crown_auth::auth::{
    bearer_token, create_jwt_token, handle_login, handle_register, handle_verify_token,
    new_user_record, register_with, verify_jwt_token, AuthConfig, RegisterRequest,
};
use crown_auth::claims::{build_claims, public_user, Claims, CredentialRecord, TOKEN_VALIDITY_SECS};
use crown_auth::error::AuthError;
use crown_auth::hasher::{hash_password, verify_password, DEFAULT_COST, MIN_COST};
use crown_auth::store::simulate_user_lookup;
use crown_auth::token::{sign_token, verify_token};

const NOW: u64 = 1_700_000_000;

fn config() -> AuthConfig {
    AuthConfig { secret: b"test-secret".to_vec(), validity_secs: TOKEN_VALIDITY_SECS }
}

fn record(id: &str, email: &str, role: &str) -> CredentialRecord {
    CredentialRecord {
        id: id.to_string(),
        email: email.to_string(),
        first_name: "Ada".to_string(),
        last_name: "Lovelace".to_string(),
        password_hash: hash_password("pw", MIN_COST).unwrap(),
        role: role.to_string(),
    }
}

fn sample_claims(exp: u64) -> Claims {
    Claims {
        sub: "u-1".to_string(),
        exp,
        iat: NOW,
        user_id: "u-1".to_string(),
        email: "a@b.c".to_string(),
        role: "user".to_string(),
    }
}

#[test]
fn hash_then_verify_accepts_same_password() {
    let h = hash_password("correct horse", MIN_COST).unwrap();
    assert!(h.starts_with("$2"));
    assert_ne!(h, "correct horse");
    assert!(verify_password("correct horse", &h));
}

#[test]
fn verify_rejects_other_password() {
    let h = hash_password("p1", MIN_COST).unwrap();
    assert!(!verify_password("p2", &h));
}

#[test]
fn verify_treats_malformed_hash_as_mismatch() {
    assert!(!verify_password("p1", "not-a-hash"));
    assert!(!verify_password("p1", ""));
}

#[test]
fn hash_refuses_cost_out_of_range() {
    assert_eq!(hash_password("p", 3), Err(AuthError::HashingError));
    assert_eq!(hash_password("p", 32), Err(AuthError::HashingError));
    assert_eq!(DEFAULT_COST, 12);
}

#[test]
fn build_claims_sets_expiry_after_window() {
    let rec = record("u-9", "u9@x.com", "user");
    let c = build_claims(&rec, NOW, TOKEN_VALIDITY_SECS).unwrap();
    assert_eq!(c.sub, "u9@x.com");
    assert_eq!(c.user_id, "u-9");
    assert_eq!(c.email, "u9@x.com");
    assert_eq!(c.role, "user");
    assert_eq!(c.iat, NOW);
    assert_eq!(c.exp, NOW + 86400);
}

#[test]
fn build_claims_rejects_empty_identity() {
    let rec = record("", "u9@x.com", "user");
    assert_eq!(build_claims(&rec, NOW, 10).unwrap_err(), AuthError::MalformedRequest);
    let rec = record("u-9", "", "user");
    assert_eq!(build_claims(&rec, NOW, 10).unwrap_err(), AuthError::MalformedRequest);
}

#[test]
fn public_user_omits_hash() {
    let rec = record("u-2", "u2@x.com", "admin");
    let u = public_user(&rec);
    assert_eq!(u.id, "u-2");
    assert_eq!(u.email, "u2@x.com");
    assert_eq!(u.first_name, "Ada");
    assert_eq!(u.last_name, "Lovelace");
    assert_eq!(u.role, "admin");
}

#[test]
fn sign_then_verify_round_trips() {
    let c = sample_claims(NOW + 100);
    let t = sign_token(&c, b"k").unwrap();
    assert_eq!(t.split('.').count(), 3);
    assert!(t.split('.').all(|seg| !seg.is_empty()
        && seg.chars().all(|ch| ch.is_ascii_alphanumeric() || ch == '-' || ch == '_')));
    assert_eq!(t, sign_token(&c, b"k").unwrap());
    let back = verify_token(&t, b"k", NOW + 99).unwrap();
    assert_eq!(back.sub, c.sub);
    assert_eq!(back.exp, c.exp);
    assert_eq!(back.iat, c.iat);
    assert_eq!(back.user_id, c.user_id);
    assert_eq!(back.email, c.email);
    assert_eq!(back.role, c.role);
}

#[test]
fn sign_refuses_empty_secret() {
    let c = sample_claims(NOW + 100);
    assert_eq!(sign_token(&c, b""), Err(AuthError::SigningError));
    assert_eq!(AuthError::token_creation_error(), AuthError::SigningError);
}

#[test]
fn verify_rejects_wrong_secret() {
    let t = sign_token(&sample_claims(NOW + 100), b"k1").unwrap();
    assert_eq!(verify_token(&t, b"k2", NOW).unwrap_err(), AuthError::InvalidSignature);
}

#[test]
fn verify_rejects_tampered_payload_and_signature() {
    let t = sign_token(&sample_claims(NOW + 100), b"k").unwrap();
    let dots: Vec<usize> = t.match_indices('.').map(|(i, _)| i).collect();
    let positions = [dots[0] + 1, dots[0] + 5, dots[1] - 1, dots[1] + 1, t.len() - 2];
    for &p in positions.iter() {
        let mut bytes = t.clone().into_bytes();
        bytes[p] = if bytes[p] == b'A' { b'B' } else { b'A' };
        let tampered = String::from_utf8(bytes).unwrap();
        let err = verify_token(&tampered, b"k", NOW).unwrap_err();
        assert!(
            err == AuthError::InvalidSignature || err == AuthError::MalformedToken,
            "position {} gave {:?}",
            p,
            err
        );
    }
}

#[test]
fn verify_rejects_malformed_token() {
    assert_eq!(verify_token("abc", b"k", NOW).unwrap_err(), AuthError::MalformedToken);
    assert_eq!(verify_token("", b"k", NOW).unwrap_err(), AuthError::MalformedToken);
}

#[test]
fn verify_rejects_token_expired_one_second_ago() {
    let t = sign_token(&sample_claims(NOW - 1), b"k").unwrap();
    assert_eq!(verify_token(&t, b"k", NOW).unwrap_err(), AuthError::Expired);
    let t = sign_token(&sample_claims(NOW), b"k").unwrap();
    assert_eq!(verify_token(&t, b"k", NOW).unwrap_err(), AuthError::Expired);
}

#[test]
fn login_success_for_seeded_admin() {
    let found = simulate_user_lookup("admin@crown.com", MIN_COST);
    let s = handle_login(found, "admin123", &config(), NOW).unwrap();
    assert_eq!(s.user.role, "admin");
    assert_eq!(s.user.id, "admin-id");
    assert_eq!(s.user.email, "admin@crown.com");
    let c = verify_jwt_token(&s.token, &config(), NOW + 1).unwrap();
    assert_eq!(c.role, "admin");
    assert_eq!(c.exp, NOW + 86400);
}

#[test]
fn login_failure_with_wrong_password() {
    let found = simulate_user_lookup("admin@crown.com", MIN_COST);
    assert_eq!(
        handle_login(found, "wrong", &config(), NOW).err(),
        Some(AuthError::InvalidCredentials)
    );
}

#[test]
fn login_unknown_user() {
    let found = simulate_user_lookup("nobody@crown.com", MIN_COST);
    assert!(found.is_none());
    assert_eq!(handle_login(found, "admin123", &config(), NOW).err(), Some(AuthError::UserNotFound));
}

#[test]
fn verify_header_without_bearer_prefix() {
    assert_eq!(
        handle_verify_token("Token abc", &config(), NOW).unwrap_err(),
        AuthError::MalformedHeader
    );
    assert_eq!(bearer_token("Bearer"), Err(AuthError::MalformedHeader));
    assert_eq!(bearer_token("bearer x"), Err(AuthError::MalformedHeader));
    assert_eq!(bearer_token("Bearer xyz"), Ok("xyz"));
}

#[test]
fn register_then_verify_returns_user_role() {
    let req = RegisterRequest {
        email: "new@x.com".to_string(),
        password: "pw".to_string(),
        first_name: "New".to_string(),
        last_name: "Person".to_string(),
    };
    let g = handle_register(&req, MIN_COST, &config(), NOW).unwrap();
    let s = g.success;
    assert_eq!(s.user.role, "user");
    assert_eq!(s.user.email, "new@x.com");
    assert_eq!(s.user.id.len(), 36);
    let header = format!("Bearer {}", s.token);
    let c = handle_verify_token(&header, &config(), NOW).unwrap();
    assert_eq!(c.email, "new@x.com");
    assert_eq!(c.sub, "new@x.com");
    assert_eq!(c.role, "user");
    assert_eq!(c.user_id, s.user.id);
    assert_eq!(c.exp, NOW + 86400);
}

#[test]
fn register_returns_record_for_the_store() {
    let req = RegisterRequest {
        email: "store@x.com".to_string(),
        password: "pw123".to_string(),
        first_name: "S".to_string(),
        last_name: "T".to_string(),
    };
    let g = handle_register(&req, MIN_COST, &config(), NOW).unwrap();
    assert_eq!(g.record.email, "store@x.com");
    assert_eq!(g.record.role, "user");
    assert_eq!(g.record.id, g.success.user.id);
    assert_ne!(g.record.password_hash, "pw123");
    assert!(verify_password("pw123", &g.record.password_hash));
    let id: Vec<char> = g.record.id.chars().collect();
    assert_eq!(id.len(), 36);
    for (i, ch) in id.iter().enumerate() {
        if i == 8 || i == 13 || i == 18 || i == 23 {
            assert_eq!(*ch, '-');
        } else {
            assert!(ch.is_ascii_digit() || ('a'..='f').contains(ch));
        }
    }
    assert_eq!(id[14], '4');
    assert!(matches!(id[19], '8' | '9' | 'a' | 'b'));
}

#[test]
fn register_refuses_cost_out_of_range() {
    let req = RegisterRequest {
        email: "c@x.com".to_string(),
        password: "pw".to_string(),
        first_name: "C".to_string(),
        last_name: "D".to_string(),
    };
    assert_eq!(handle_register(&req, 3, &config(), NOW).err(), Some(AuthError::HashingError));
}

#[test]
fn verify_header_with_undecodable_token() {
    assert_eq!(
        handle_verify_token("Bearer abc", &config(), NOW).unwrap_err(),
        AuthError::MalformedToken
    );
    assert_eq!(verify_token("a.b.c", b"k", NOW).unwrap_err(), AuthError::MalformedToken);
}

#[test]
fn hash_has_bcrypt_form() {
    let h = hash_password("pw", MIN_COST).unwrap();
    assert_eq!(h.len(), 60);
    assert!(h.starts_with("$2b$04$"));
}

#[test]
fn seeded_lookup_refuses_bad_cost() {
    assert!(simulate_user_lookup("admin@crown.com", 2).is_none());
}

#[test]
fn register_with_empty_email_is_refused() {
    let req = RegisterRequest {
        email: String::new(),
        password: "pw".to_string(),
        first_name: "A".to_string(),
        last_name: "B".to_string(),
    };
    assert_eq!(
        register_with(&req, "id-1".to_string(), "h".to_string(), &config(), NOW).err(),
        Some(AuthError::MalformedRequest)
    );
}

#[test]
fn new_user_record_defaults_role() {
    let req = RegisterRequest {
        email: "n@x.com".to_string(),
        password: "pw".to_string(),
        first_name: "N".to_string(),
        last_name: "M".to_string(),
    };
    let rec = new_user_record(&req, "id-7".to_string(), "hash".to_string());
    assert_eq!(rec.role, "user");
    assert_eq!(rec.id, "id-7");
    assert_eq!(rec.password_hash, "hash");
}

#[test]
fn create_token_with_empty_secret_fails() {
    let cfg = AuthConfig { secret: Vec::new(), validity_secs: 60 };
    let rec = record("u-3", "u3@x.com", "user");
    assert_eq!(create_jwt_token(&rec, &cfg, NOW), Err(AuthError::SigningError));
}

#[test]
fn error_messages_are_nonempty() {
    assert_eq!(AuthError::SigningError.message(), "Failed to create token");
    assert_eq!(AuthError::MalformedHeader.message(), "Invalid authorization header format");
}
