use classroom_backend::accounts::{hash_password, password_matches};

#[test]
fn a_stored_hash_accepts_only_its_password() {
    let h = hash_password("correct horse");
    assert_eq!(h.len(), 60);
    assert!(h.starts_with("$2b$12$"));
    assert!(password_matches("correct horse", &h));
    assert!(!password_matches("battery staple", &h));
}

#[test]
fn a_malformed_hash_matches_nothing() {
    assert!(!password_matches("anything", "not a bcrypt hash"));
    assert!(!password_matches("", ""));
}

#[test]
fn each_hash_has_its_own_salt() {
    assert_ne!(hash_password("same"), hash_password("same"));
}
