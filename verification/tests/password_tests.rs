use bugtrack::errors::AuthError;
use bugtrack::password::{PasswordHasher, DEFAULT_COST, MAX_COST, MAX_PEPPER_BYTES, MIN_COST};
use bugtrack::secret::Secret;

fn secret(text: &str) -> Secret {
    Secret::from_config(Some(text.to_string())).ok().unwrap()
}

fn hasher(pepper: &str) -> PasswordHasher {
    PasswordHasher::with_cost(secret(pepper), MIN_COST).unwrap()
}

#[test]
fn hashed_password_verifies() {
    let h = hasher("pepper");
    let digest = h.hash_password("Secret123").unwrap();
    assert!(h.verify_password("Secret123", &digest));
}

#[test]
fn hashed_passwords_of_many_shapes_verify() {
    let h = hasher("pepper");
    for p in ["a", " ", "pässwörd", "with\0nul", "密码", "a much longer password than most people would ever type"] {
        let digest = h.hash_password(p).unwrap();
        assert!(h.verify_password(p, &digest));
    }
}

#[test]
fn other_password_does_not_verify() {
    let h = hasher("pepper");
    let digest = h.hash_password("Secret123").unwrap();
    assert!(!h.verify_password("Secret124", &digest));
    assert!(!h.verify_password("", &digest));
    assert!(!h.verify_password("secret123", &digest));
}

#[test]
fn two_digests_of_one_password_differ_and_both_verify() {
    let h = hasher("pepper");
    let first = h.hash_password("Secret123").unwrap();
    let second = h.hash_password("Secret123").unwrap();
    assert_ne!(first, second);
    assert!(h.verify_password("Secret123", &first));
    assert!(h.verify_password("Secret123", &second));
}

#[test]
fn digest_is_not_the_plaintext() {
    let h = hasher("pepper");
    let digest = h.hash_password("Secret123").unwrap();
    assert_ne!(digest, "Secret123");
    assert!(!digest.contains("Secret123"));
    assert!(digest.starts_with("$2b$04$"));
    assert_eq!(digest.len(), 60);
}

#[test]
fn malformed_digest_verifies_nothing() {
    let h = hasher("pepper");
    assert!(!h.verify_password("Secret123", ""));
    assert!(!h.verify_password("Secret123", "not a digest"));
    assert!(!h.verify_password("Secret123", "$2b$04$tooshort"));
    assert!(!h.verify_password("Secret123", "$9z$04$EGdrhbKUv8Oc9vGiXX0HQOxSg445d458Muh7DAHskb6QbtCvdxcie"));
}

#[test]
fn empty_password_is_refused() {
    let h = hasher("pepper");
    assert_eq!(h.hash_password(""), Err(AuthError::Validation));
}

#[test]
fn pepper_goes_before_the_password() {
    // A digest of "correctbatteryhorsestapler" made elsewhere.
    let digest = "$2b$04$EGdrhbKUv8Oc9vGiXX0HQOxSg445d458Muh7DAHskb6QbtCvdxcie";
    assert!(hasher("correct").verify_password("batteryhorsestapler", digest));
    assert!(hasher("correctbattery").verify_password("horsestapler", digest));
    assert!(!hasher("batteryhorsestapler").verify_password("correct", digest));
    assert!(!hasher("c").verify_password("correctbatteryhorsestapler", digest));
}

#[test]
fn another_pepper_does_not_verify() {
    let digest = hasher("pepper-one").hash_password("Secret123").unwrap();
    assert!(hasher("pepper-one").verify_password("Secret123", &digest));
    assert!(!hasher("pepper-two").verify_password("Secret123", &digest));
}

#[test]
fn work_factor_must_be_in_range() {
    assert!(PasswordHasher::with_cost(secret("p"), MIN_COST - 1).is_none());
    assert!(PasswordHasher::with_cost(secret("p"), MAX_COST + 1).is_none());
    assert!(PasswordHasher::with_cost(secret("p"), 0).is_none());
    assert!(PasswordHasher::with_cost(secret("p"), MIN_COST).is_some());
    assert!(PasswordHasher::with_cost(secret("p"), MAX_COST).is_some());
    assert_eq!(MIN_COST, 4);
    assert_eq!(MAX_COST, 31);
    assert_eq!(DEFAULT_COST, 12);
}

#[test]
fn work_factor_is_embedded_in_the_digest() {
    let h = PasswordHasher::with_cost(secret("pepper"), 5).unwrap();
    let digest = h.hash_password("Secret123").unwrap();
    assert!(digest.starts_with("$2b$05$"));
    assert!(hasher("pepper").verify_password("Secret123", &digest));
}

#[test]
fn failure_of_the_digest_primitive_is_internal() {
    let failed = Err(bcrypt::BcryptError::CostNotAllowed(99));
    assert_eq!(PasswordHasher::digest_from(failed), Err(AuthError::Internal));
    assert_eq!(PasswordHasher::digest_from(Ok("digest".to_string())), Ok("digest".to_string()));
}

#[test]
fn default_work_factor_is_that_of_the_digest() {
    assert_eq!(DEFAULT_COST, bcrypt::DEFAULT_COST);
    let h = PasswordHasher::new(secret("pepper")).unwrap();
    let digest = h.hash_password("Secret123").unwrap();
    assert!(digest.starts_with("$2b$12$"));
    assert!(h.verify_password("Secret123", &digest));
    assert!(bcrypt::verify("pepperSecret123", &digest).unwrap());
}

#[test]
fn pepper_must_leave_room_for_the_password() {
    assert_eq!(MAX_PEPPER_BYTES, 32);
    let fits = "p".repeat(32);
    let too_long = "p".repeat(33);
    assert!(PasswordHasher::new(secret(&fits)).is_some());
    assert!(PasswordHasher::new(secret(&too_long)).is_none());
    assert!(PasswordHasher::with_cost(secret(&fits), MIN_COST).is_some());
    assert!(PasswordHasher::with_cost(secret(&too_long), MIN_COST).is_none());
    assert!(PasswordHasher::with_cost(secret(&"p".repeat(72)), MIN_COST).is_none());
    // The bound counts bytes, not characters.
    assert!(PasswordHasher::new(secret(&"\u{e9}".repeat(16))).is_some());
    assert!(PasswordHasher::new(secret(&"\u{e9}".repeat(17))).is_none());
}

#[test]
fn passwords_are_told_apart_under_the_longest_pepper() {
    let h = PasswordHasher::with_cost(secret(&"p".repeat(32)), MIN_COST).unwrap();
    let digest = h.hash_password("Secret123").unwrap();
    assert!(h.verify_password("Secret123", &digest));
    assert!(!h.verify_password("Secret124", &digest));
    assert!(!h.verify_password("S", &digest));
}

#[test]
fn digest_has_the_shape_of_its_work_factor() {
    for cost in [4u32, 5, 9, 10] {
        let h = PasswordHasher::with_cost(secret("pepper"), cost).unwrap();
        let digest = h.hash_password("Secret123").unwrap();
        let chars: Vec<char> = digest.chars().collect();
        assert_eq!(chars.len(), 60);
        assert_eq!(&digest[0..4], "$2b$");
        assert_eq!(chars[4] as u32, 48 + cost / 10);
        assert_eq!(chars[5] as u32, 48 + cost % 10);
        assert_eq!(chars[6], '$');
        assert_eq!(&digest[4..6], format!("{:02}", cost));
    }
}
