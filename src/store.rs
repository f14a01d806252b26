use vstd::prelude::*;
use crate::claims::CredentialRecord;
use crate::hasher::{hash_password, password_matches, MAX_COST, MIN_COST};

verus! {

/// A stand-in credential store holding one seeded administrator,
/// `admin@crown.com` with password `admin123`, hashed at work factor `cost`
/// on each lookup. Every other identifier is unknown.
pub fn simulate_user_lookup(email: &str, cost: u32) -> (r: Option<CredentialRecord>)
    ensures
        email@ != "admin@crown.com"@ ==> r is None,
        !(MIN_COST <= cost <= MAX_COST) ==> r is None,
        r matches Some(rec) ==> {
            &&& email@ == "admin@crown.com"@
            &&& rec.id@ == "admin-id"@
            &&& rec.email@ == email@
            &&& rec.first_name@ == "Admin"@
            &&& rec.last_name@ == "User"@
            &&& rec.role@ == "admin"@
            &&& password_matches("admin123"@, rec.password_hash@)
        },
{
    let requested = email.to_owned();
    let admin = "admin@crown.com".to_owned();
    if requested != admin {
        return None;
    }
    match hash_password("admin123", cost) {
        Ok(password_hash) => Some(
            CredentialRecord {
                id: "admin-id".to_owned(),
                email: requested,
                first_name: "Admin".to_owned(),
                last_name: "User".to_owned(),
                password_hash,
                role: "admin".to_owned(),
            },
        ),
        Err(_) => None,
    }
}

} // verus!
