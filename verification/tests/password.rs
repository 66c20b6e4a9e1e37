use testcontainers_test::domain::errors::{HashFailure, InnerError};
use testcontainers_test::password::{
    costs_checked, hash_and_salt_password, hash_password_with_salt, hashing_reply,
    verification_reply, verify_password, PARALLELISM_LIMIT,
};

const SALT: &str = "c29tZXNhbHRzb21lc2FsdA";

const FREEDMAN_HASH: &str = "$argon2id$v=19$m=19456,t=2,p=1$c29tZXNhbHRzb21lc2FsdA$hbbEwOxish008cY6LWlTFMlZQQEWuKn8lzGviC/pFsU";

#[test]
fn a_password_and_a_salt_give_one_hash() {
    let hash = hash_password_with_salt("freedman", SALT).unwrap();
    assert_eq!(hash, FREEDMAN_HASH);
    assert_ne!(hash, "freedman");
    assert_ne!(hash, SALT);
}

#[test]
fn another_password_gives_another_hash() {
    let hash = hash_password_with_salt("freedmen", SALT).unwrap();
    assert_ne!(hash, FREEDMAN_HASH);
    assert!(hash.starts_with("$argon2id$v=19$m=19456,t=2,p=1$c29tZXNhbHRzb21lc2FsdA$"));
}

#[test]
fn a_salt_that_is_no_salt_is_a_hashing_error() {
    let too_short = hash_password_with_salt("freedman", "!");
    assert!(matches!(too_short, Err(InnerError::PasswordHashingError { .. })));
    let bad_character = hash_password_with_salt("freedman", "some salt with spaces");
    assert!(matches!(bad_character, Err(InnerError::PasswordHashingError { .. })));
}

#[test]
fn a_fresh_hash_verifies_and_is_salted_anew() {
    let first = hash_and_salt_password(String::from("freedman")).unwrap();
    let second = hash_and_salt_password(String::from("freedman")).unwrap();
    assert_ne!(first, second);
    assert!(first.starts_with("$argon2id$v=19$m=19456,t=2,p=1$"));
    assert_eq!(verify_password("freedman", &first).unwrap(), true);
    assert_eq!(verify_password("freedman", &second).unwrap(), true);
}

#[test]
fn the_right_password_verifies() {
    assert_eq!(verify_password("freedman", FREEDMAN_HASH).unwrap(), true);
}

#[test]
fn a_wrong_password_is_a_mismatch_and_no_error() {
    assert_eq!(verify_password("wrong", FREEDMAN_HASH).unwrap(), false);
    assert_eq!(verify_password("", FREEDMAN_HASH).unwrap(), false);
    assert_eq!(verify_password("Freedman", FREEDMAN_HASH).unwrap(), false);
}

#[test]
fn a_stored_hash_that_is_no_hash_is_a_hashing_error() {
    for stored in ["", "not-a-hash", "freedman", "$argon2id$v=19$m=19456,t=2,p=1$$$$"] {
        let checked = verify_password("freedman", stored);
        assert!(matches!(checked, Err(InnerError::PasswordHashingError { .. })));
    }
}

#[test]
fn a_hash_of_another_algorithm_is_a_hashing_error() {
    let stored = "$scrypt$ln=16,r=8,p=1$c29tZXNhbHRzb21lc2FsdA$hbbEwOxish008cY6LWlTFMlZQQEWuKn8lzGviC/pFsU";
    let checked = verify_password("freedman", stored);
    assert!(matches!(checked, Err(InnerError::PasswordHashingError { .. })));
}

#[test]
fn replies_keep_what_the_primitive_returned() {
    assert_eq!(hashing_reply(Ok(String::from("hash"))).unwrap(), "hash");
    match hashing_reply(Err(HashFailure { detail: String::from("cryptographic error") })) {
        Err(InnerError::PasswordHashingError { error_source }) => {
            assert_eq!(error_source.detail, "cryptographic error")
        }
        other => panic!("unexpected reply: {:?}", other),
    }
    assert_eq!(verification_reply(Ok(true)).unwrap(), true);
    assert_eq!(verification_reply(Ok(false)).unwrap(), false);
    match verification_reply(Err(HashFailure { detail: String::from("invalid algorithm") })) {
        Err(InnerError::PasswordHashingError { error_source }) => {
            assert_eq!(error_source.detail, "invalid algorithm")
        }
        other => panic!("unexpected reply: {:?}", other),
    }
}

fn stored_with(parameters: &str) -> String {
    format!(
        "$argon2id$v=19${}$c29tZXNhbHRzb21lc2FsdA$hbbEwOxish008cY6LWlTFMlZQQEWuKn8lzGviC/pFsU",
        parameters
    )
}

#[test]
fn the_limit_is_two_to_the_twenty_ninth() {
    assert_eq!(PARALLELISM_LIMIT, 536_870_912);
}

#[test]
fn a_parallelism_beyond_the_limit_is_a_hashing_error() {
    let stored = "$argon2id$v=19$m=19456,t=2,p=536870912$c29tZXNhbHRzb21lc2FsdA$hbbEwOxish008cY6LWlTFMlZQQEWuKn8lzGviC/pFsU";
    assert!(!costs_checked(stored));
    let checked = verify_password("freedman", stored);
    assert!(matches!(checked, Err(InnerError::PasswordHashingError { .. })));
    for parallelism in ["536870913", "4294967295", "4294967296", "99999999999999999999999"] {
        let stored = stored_with(&format!("m=19456,t=2,p={}", parallelism));
        assert!(!costs_checked(&stored));
        let checked = verify_password("freedman", &stored);
        assert!(matches!(checked, Err(InnerError::PasswordHashingError { .. })));
    }
}

#[test]
fn a_parallelism_below_the_limit_goes_to_argon2() {
    let largest = stored_with("m=19456,t=2,p=536870911");
    assert!(costs_checked(&largest));
    let checked = verify_password("freedman", &largest);
    assert!(matches!(checked, Err(InnerError::PasswordHashingError { .. })));
    assert!(costs_checked(FREEDMAN_HASH));
    assert!(costs_checked(&stored_with("m=19456,t=2,p=0000000001")));
    assert!(costs_checked(&stored_with("m=19456,t=2")));
    assert!(costs_checked(""));
    assert!(costs_checked("p"));
    assert!(costs_checked("p="));
    assert!(costs_checked("p=x536870912"));
}

#[test]
fn every_parallelism_of_a_hash_is_tested() {
    assert!(!costs_checked(&stored_with("p=536870912,m=19456,t=2,p=1")));
    assert!(!costs_checked(&stored_with("m=19456,t=2,p=1,p=536870912")));
    assert!(!costs_checked("p=536870912"));
    assert!(!costs_checked("p=0536870912"));
    assert!(!costs_checked("xp=536870912x"));
    assert!(costs_checked(&stored_with("m=536870912,t=536870912,p=1")));
}

#[test]
fn a_hash_with_more_lanes_verifies() {
    let hash = "$argon2id$v=19$m=64,t=1,p=2$c29tZXNhbHRzb21lc2FsdA$";
    assert!(costs_checked(hash));
    let checked = verify_password("freedman", hash);
    assert!(matches!(checked, Ok(false) | Err(InnerError::PasswordHashingError { .. })));
}
