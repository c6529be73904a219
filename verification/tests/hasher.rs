use troveserver::errors::ServiceError;
use troveserver::utils::{
    hash_password, hash_with_salt, seal_record, verify, Salt, KEY_TEXT_LEN, RECORD_PREFIX,
    RECORD_PREFIX_LEN, SALT_LEN,
};

// PBKDF2-HMAC-SHA256 of "pw1" under the 16 bytes "saltsaltsaltsalt", 600000 rounds.
const EXPECTED_RECORD: &str =
    "$pbkdf2-sha256$i=600000,l=32$c2FsdHNhbHRzYWx0c2FsdA$NbQjub16jQx02KYoZK6iQLl7fO/zDDX0wbEcZCfETlI";

#[test]
fn hashed_password_verifies() {
    let record = hash_password("correct horse battery staple").unwrap();
    assert_eq!(verify(&record, "correct horse battery staple").unwrap(), true);
}

#[test]
fn hash_is_a_self_describing_record() {
    let record = hash_password("pw1").unwrap();
    assert!(record.starts_with("$pbkdf2-sha256$"));
    assert_ne!(record, "pw1");
    assert_eq!(record.matches('$').count(), 4);
}

#[test]
fn other_password_is_rejected() {
    let record = hash_password("pw1").unwrap();
    assert_eq!(verify(&record, "pw2").unwrap(), false);
}

#[test]
fn same_password_hashes_to_different_records() {
    let first = hash_password("pw1").unwrap();
    let second = hash_password("pw1").unwrap();
    assert_ne!(first, second);
}

#[test]
fn both_records_of_one_password_verify() {
    let first = hash_password("s3cret").unwrap();
    let second = hash_password("s3cret").unwrap();
    assert_eq!(verify(&first, "s3cret").unwrap(), true);
    assert_eq!(verify(&second, "s3cret").unwrap(), true);
}

#[test]
fn empty_password_hashes_and_verifies() {
    let record = hash_password("").unwrap();
    assert_eq!(verify(&record, "").unwrap(), true);
}

#[test]
fn known_record_verifies() {
    // PBKDF2-HMAC-SHA256 of "password" under the salt "salt", 1 round, 32 bytes.
    let record = "$pbkdf2-sha256$i=1,l=32$c2FsdA$Eg+2z/z4syxD5yJSVsT4N6hlSMkszDVICAWYfLcL4Xs";
    assert_eq!(verify(record, "password").unwrap(), true);
    assert_eq!(verify(record, "Password").unwrap(), false);
    let other = "$pbkdf2-sha256$i=2,l=32$c2FsdHNhbHQ$5Ms1Lq45o0XMpejj3AVF9wdobNCPTYDX5zPsIMfLx3o";
    assert_eq!(verify(other, "pw1").unwrap(), true);
    assert_eq!(verify(other, "pw2").unwrap(), false);
}

#[test]
fn unreadable_record_is_a_format_error() {
    assert!(matches!(verify("not a record", "pw1"), Err(ServiceError::InternalServerError)));
    assert!(matches!(verify("", "pw1"), Err(ServiceError::InternalServerError)));
    assert!(matches!(verify("pw1", "pw1"), Err(ServiceError::InternalServerError)));
}

#[test]
fn record_of_another_algorithm_is_a_mismatch() {
    // Parses as a PHC string, but PBKDF2 cannot verify it.
    let record = "$argon2id$v=19$m=16,t=2,p=1$c2FsdHNhbHQ$aGFzaGhhc2hoYXNoaGFzaA";
    assert_eq!(verify(record, "pw1").unwrap(), false);
}

#[test]
fn seal_refuses_missing_and_unreadable_records() {
    assert!(matches!(seal_record(None), Err(ServiceError::InternalServerError)));
    assert!(matches!(
        seal_record(Some(String::from("garbage"))),
        Err(ServiceError::InternalServerError)
    ));
    let record = "$pbkdf2-sha256$i=1,l=32$c2FsdA$Eg+2z/z4syxD5yJSVsT4N6hlSMkszDVICAWYfLcL4Xs";
    assert_eq!(seal_record(Some(String::from(record))).unwrap(), record);
}

#[test]
fn hash_under_a_given_salt_is_the_pbkdf2_record() {
    let salt = Salt::parse("c2FsdHNhbHRzYWx0c2FsdA").unwrap();
    assert_eq!(salt.as_str(), "c2FsdHNhbHRzYWx0c2FsdA");
    let record = hash_with_salt("pw1", &salt).unwrap();
    assert_eq!(record, EXPECTED_RECORD);
    assert_ne!(hash_with_salt("pw2", &salt).unwrap(), record);
    assert_eq!(verify(EXPECTED_RECORD, "pw1").unwrap(), true);
}

#[test]
fn salt_is_the_text_of_sixteen_bytes() {
    assert!(Salt::parse("c2FsdHNhbHRzYWx0c2FsdA").is_some());
    assert!(Salt::parse("AAAAAAAAAAAAAAAAAAAAAQ").is_some());
    assert!(Salt::parse("+/+/+/+/+/+/+/+/+/+/+w").is_some());
    // Too short, too long, outside the alphabet, spare bits set in the last character.
    assert_eq!(Salt::parse(""), None);
    assert_eq!(Salt::parse("c2FsdHNhbHRzYWx0c2Fsd"), None);
    assert_eq!(Salt::parse("c2FsdHNhbHRzYWx0c2FsdAA"), None);
    assert_eq!(Salt::parse("c2FsdHNhbHRzYWx0c2Fs.A"), None);
    assert_eq!(Salt::parse("c2FsdHNhbHRzYWx0c2Fs=A"), None);
    assert_eq!(Salt::parse("c2FsdHNhbHRzYWx0c2FsdB"), None);
    assert_eq!(Salt::parse("c2FsdHNhbHRzYWx0c2Fsd9"), None);
    assert_eq!(Salt::parse("c2FsdHNhbHRzYWx0c2Fsdé"), None);
}

#[test]
fn hashing_never_fails() {
    for password in ["a", "pass word"] {
        assert!(hash_password(password).is_ok());
    }
}

#[test]
fn drawn_salt_is_the_text_of_sixteen_bytes() {
    let record = hash_password("pw1").unwrap();
    let fields: Vec<&str> = record.split('$').collect();
    assert_eq!(fields.len(), 5);
    assert_eq!(fields[1], "pbkdf2-sha256");
    assert_eq!(fields[2], "i=600000,l=32");
    assert_eq!(fields[4].len(), KEY_TEXT_LEN);
    assert!(fields[4].chars().all(|c| c.is_ascii_alphanumeric() || c == '+' || c == '/'));
    assert!(record.starts_with(RECORD_PREFIX));
    let salt = Salt::parse(fields[3]).unwrap();
    assert_eq!(hash_with_salt("pw1", &salt).unwrap(), record);
}

#[test]
fn record_has_prefix_salt_and_key() {
    assert_eq!(RECORD_PREFIX, "$pbkdf2-sha256$i=600000,l=32$");
    assert_eq!(RECORD_PREFIX.len(), RECORD_PREFIX_LEN);
    assert_eq!((RECORD_PREFIX_LEN, SALT_LEN, KEY_TEXT_LEN), (29, 22, 43));
    assert_eq!(EXPECTED_RECORD.len(), RECORD_PREFIX_LEN + SALT_LEN + 1 + KEY_TEXT_LEN);
}

#[test]
fn records_under_different_salts_differ() {
    let first = Salt::parse("c2FsdHNhbHRzYWx0c2FsdA").unwrap();
    let second = Salt::parse("c2FsdHNhbHRzYWx0c2FsdQ").unwrap();
    let one = hash_with_salt("pw1", &first).unwrap();
    let two = hash_with_salt("pw1", &second).unwrap();
    assert_ne!(one, two);
    assert_eq!(&one[..RECORD_PREFIX_LEN], &two[..RECORD_PREFIX_LEN]);
    assert_eq!(&one[RECORD_PREFIX_LEN..RECORD_PREFIX_LEN + SALT_LEN], "c2FsdHNhbHRzYWx0c2FsdA");
    assert_eq!(&two[RECORD_PREFIX_LEN..RECORD_PREFIX_LEN + SALT_LEN], "c2FsdHNhbHRzYWx0c2FsdQ");
}
