use bugtrack::access::{bearer_token, require_role, AccessGate, Admission, RejectReason};
use bugtrack::auth::{assign_role, AuthenticationService};
use bugtrack::errors::{AuthError, TokenError};
use bugtrack::handlers::{
    error_response, login, login_at, login_begin, login_conclude, login_conclude_at,
    login_conclude_on, login_on, protected_endpoint, register_reply, token_reply,
};
use bugtrack::models::{Claims, LoginRequest, User};
use bugtrack::password::PasswordHasher;
use bugtrack::secret::Secret;
use bugtrack::store::{CredentialStore, StoreError};
use bugtrack::token::TokenService;

fn secret(text: &str) -> Secret {
    Secret::from_config(Some(text.to_string())).ok().unwrap()
}

fn auth() -> AuthenticationService {
    AuthenticationService::new(PasswordHasher::with_cost(secret("pepper"), 4).unwrap())
}

fn tokens() -> TokenService {
    TokenService::new(secret("signing-key"))
}

fn request(username: &str, password: &str) -> LoginRequest {
    LoginRequest { username: username.to_string(), password: password.to_string() }
}

#[test]
fn register_login_and_protected_route() {
    let auth = auth();
    let tokens = tokens();
    let mut store = CredentialStore::new();

    let first = register_reply(auth.register(&mut store, "alice", "Secret123", None));
    assert_eq!(first.status, 200);
    assert_eq!(first.body.status, "success");

    let second = register_reply(auth.register(&mut store, "alice", "Other456", None));
    assert_eq!(second.status, 409);
    assert_eq!(second.body.status, "failure");
    assert_eq!(second.body.message, "username taken");

    let good = login(&auth, &tokens, &store, &request("alice", "Secret123"));
    assert_eq!(good.status, 200);
    assert_eq!(good.body.status, "success");
    let token = good.body.token.unwrap();
    assert!(!token.is_empty());

    let bad = login(&auth, &tokens, &store, &request("alice", "wrong"));
    assert_eq!(bad.status, 401);
    assert_eq!(bad.body.status, "failure");
    assert_eq!(bad.body.token, None);

    let guard = AccessGate::new(self::tokens());
    let header = format!("Bearer {}", token);
    let admitted = protected_endpoint(guard.auth_validator(Some(&header)));
    assert_eq!(admitted.status, 200);
    assert_eq!(admitted.user, Some("alice".to_string()));
    assert_eq!(admitted.role, Some("developer".to_string()));

    let no_header = protected_endpoint(guard.auth_validator(None));
    assert_eq!(no_header.status, 401);
    assert_eq!(no_header.message, "missing or malformed credential");

    let garbage = protected_endpoint(guard.auth_validator(Some("Bearer garbage")));
    assert_eq!(garbage.status, 401);
    assert_eq!(garbage.message, "malformed token");
}

#[test]
fn unknown_user_and_wrong_password_get_the_same_answer() {
    let auth = auth();
    let tokens = tokens();
    let mut store = CredentialStore::new();
    auth.register(&mut store, "realuser", "rightpass", None).unwrap();

    assert_eq!(auth.authenticate_user(&store, "nouser", "anything"), None);
    assert_eq!(auth.authenticate_user(&store, "realuser", "wrongpass"), None);

    let unknown = login_at(&auth, &tokens, &store, &request("nouser", "anything"), 1_700_000_000);
    let wrong = login_at(&auth, &tokens, &store, &request("realuser", "wrongpass"), 1_700_000_500);
    assert_eq!(unknown, wrong);
    assert_eq!(unknown.status, 401);
    assert_eq!(unknown.body.status, "failure");
    assert_eq!(unknown.body.token, None);
    assert_eq!(unknown.body.message, "Invalid username or password");
}

#[test]
fn authenticate_returns_the_stored_identity() {
    let auth = auth();
    let mut store = CredentialStore::new();
    let alice = auth.register(&mut store, "alice", "Secret123", Some("admin")).unwrap();
    let bob = auth.register(&mut store, "bob", "hunter2", None).unwrap();
    assert_eq!(alice.id, 1);
    assert_eq!(bob.id, 2);
    assert_eq!(alice.role, "admin");
    assert_eq!(bob.role, "developer");
    assert_ne!(alice.password_hash, "Secret123");
    assert_eq!(auth.authenticate_user(&store, "alice", "Secret123"), Some(alice));
    assert_eq!(auth.authenticate_user(&store, "bob", "hunter2"), Some(bob));
    assert_eq!(auth.authenticate_user(&store, "bob", "Secret123"), None);
    assert_eq!(auth.authenticate_user(&store, "Alice", "Secret123"), None);
}

#[test]
fn registration_is_validated() {
    let auth = auth();
    let mut store = CredentialStore::new();
    assert_eq!(auth.register(&mut store, "", "Secret123", None), Err(AuthError::Validation));
    assert_eq!(auth.register(&mut store, "   ", "Secret123", None), Err(AuthError::Validation));
    assert_eq!(auth.register(&mut store, "alice", "", None), Err(AuthError::Validation));
    assert_eq!(auth.register(&mut store, "alice", " \t", None), Err(AuthError::Validation));
    assert_eq!(auth.register(&mut store, "alice", "Secret123", Some("root")), Err(AuthError::Validation));
    assert_eq!(store.get_user_by_username("alice"), None);
    assert_eq!(register_reply(Err(AuthError::Validation)).status, 400);
    let reg = auth.prepare_registration("alice", "Secret123", Some("admin")).unwrap();
    assert_eq!(reg.username, "alice");
    assert_eq!(reg.role, "admin");
    assert_ne!(reg.password_hash, "Secret123");
}

#[test]
fn taken_username_leaves_the_store_as_it_was() {
    let auth = auth();
    let mut store = CredentialStore::new();
    let alice = auth.register(&mut store, "alice", "Secret123", None).unwrap();
    assert_eq!(auth.register(&mut store, "alice", "Other456", Some("admin")), Err(AuthError::Conflict));
    assert_eq!(store.get_user_by_username("alice"), Some(alice));
    assert_eq!(auth.authenticate_user(&store, "alice", "Other456"), None);
    let bob = auth.register(&mut store, "bob", "Other456", None).unwrap();
    assert_eq!(bob.id, 2);
}

#[test]
fn store_answers() {
    let mut store = CredentialStore::new();
    assert_eq!(store.get_user_by_username("alice"), None);
    let alice = store.insert("alice", "digest-a", "admin").unwrap();
    assert_eq!(
        alice,
        User { id: 1, username: "alice".to_string(), password_hash: "digest-a".to_string(), role: "admin".to_string() }
    );
    assert_eq!(store.insert("alice", "digest-b", "developer"), Err(StoreError::UniqueViolation));
    let bob = store.insert("bob", "digest-b", "developer").unwrap();
    assert_eq!(bob.id, 2);
    assert_eq!(store.get_user_by_username("alice"), Some(alice));
    assert_eq!(store.get_user_by_username("bob"), Some(bob));
    assert_eq!(store.get_user_by_username("carol"), None);
}

#[test]
fn answers_of_the_store_are_translated() {
    let user = User { id: 1, username: "a".to_string(), password_hash: "d".to_string(), role: "admin".to_string() };
    assert_eq!(AuthenticationService::conclude_registration(Ok(user.clone())), Ok(user));
    assert_eq!(
        AuthenticationService::conclude_registration(Err(StoreError::UniqueViolation)),
        Err(AuthError::Conflict)
    );
    assert_eq!(
        AuthenticationService::conclude_registration(Err(StoreError::Unavailable)),
        Err(AuthError::StoreUnavailable)
    );
}

#[test]
fn login_with_blank_fields_is_a_validation_failure() {
    let auth = auth();
    let tokens = tokens();
    let store = CredentialStore::new();
    for (u, p) in [("", "x"), ("x", ""), ("  ", "x"), ("x", " \n"), ("", "")] {
        let reply = login(&auth, &tokens, &store, &request(u, p));
        assert_eq!(reply.status, 400);
        assert_eq!(reply.body.status, "failure");
        assert_eq!(reply.body.token, None);
        assert_eq!(login_begin(&request(u, p)), Some(error_response(AuthError::Validation)));
    }
    assert_eq!(login_begin(&request("alice", "Secret123")), None);
}

#[test]
fn login_in_two_steps() {
    let auth = auth();
    let tokens = tokens();
    let mut store = CredentialStore::new();
    let alice = auth.register(&mut store, "alice", "Secret123", Some("admin")).unwrap();
    let req = request("alice", "Secret123");

    let reply = login_conclude_at(&auth, &tokens, &req, Ok(Some(alice.clone())), 1_700_000_000);
    assert_eq!(reply.status, 200);
    assert_eq!(reply.body.message, "Login successful");
    let expected = tokens.create_jwt_at("alice", "admin", 1_700_000_000).unwrap();
    assert_eq!(reply.body.token, Some(expected));

    let absent = login_conclude_at(&auth, &tokens, &req, Ok(None), 1_700_000_000);
    assert_eq!(absent, error_response(AuthError::Unauthorized));

    let down = login_conclude_at(&auth, &tokens, &req, Err(StoreError::Unavailable), 1_700_000_000);
    assert_eq!(down.status, 503);
    assert_eq!(down, error_response(AuthError::StoreUnavailable));

    let overflow = login_conclude_at(&auth, &tokens, &req, Ok(Some(alice.clone())), u64::MAX);
    assert_eq!(overflow, error_response(AuthError::Internal));

    let now = login_conclude(&auth, &tokens, &req, Ok(Some(alice)));
    assert_eq!(now.status, 200);
    assert!(tokens.verify_jwt(&now.body.token.unwrap()).is_ok());
}

#[test]
fn failures_have_fixed_answers() {
    let cases = [
        (AuthError::Validation, 400, "Username and password are required"),
        (AuthError::Conflict, 409, "username taken"),
        (AuthError::Unauthorized, 401, "Invalid username or password"),
        (AuthError::StoreUnavailable, 503, "Service temporarily unavailable"),
        (AuthError::Internal, 500, "Internal error"),
    ];
    for (err, status, message) in cases {
        assert_eq!(err.status_code(), status);
        assert_eq!(err.message(), message);
        let reply = error_response(err);
        assert_eq!(reply.status, status);
        assert_eq!(reply.body.status, "failure");
        assert_eq!(reply.body.token, None);
        assert_eq!(reply.body.message, message);
        assert_eq!(token_reply(Err(err)), reply);
    }
    let ok = token_reply(Ok("t".to_string()));
    assert_eq!(ok.status, 200);
    assert_eq!(ok.body.token, Some("t".to_string()));
}

#[test]
fn bearer_token_is_what_follows_the_scheme() {
    assert_eq!(bearer_token(None), None);
    assert_eq!(bearer_token(Some("")), None);
    assert_eq!(bearer_token(Some("Bearer")), None);
    assert_eq!(bearer_token(Some("bearer abc")), None);
    assert_eq!(bearer_token(Some("Basic abc")), None);
    assert_eq!(bearer_token(Some(" Bearer abc")), None);
    assert_eq!(bearer_token(Some("Bearer ")), Some(""));
    assert_eq!(bearer_token(Some("Bearer abc")), Some("abc"));
    assert_eq!(bearer_token(Some("Bearer a.b.c d")), Some("a.b.c d"));
    assert_eq!(bearer_token(Some("Bearer  abc")), Some(" abc"));
    assert_eq!(bearer_token(Some("Bearér abc")), None);
    assert_eq!(bearer_token(Some("Bearer tökén")), Some("tökén"));
}

#[test]
fn guard_decisions() {
    let guard = AccessGate::new(tokens());
    let token = tokens().create_jwt_at("alice", "admin", 1_700_000_000).unwrap();
    let header = format!("Bearer {}", token);
    let claims = Claims { sub: "alice".to_string(), role: "admin".to_string(), exp: 1_700_086_400 };

    assert_eq!(guard.auth_validator_at(Some(&header), 1_700_000_000), Admission::Admitted(claims.clone()));
    assert_eq!(
        guard.auth_validator_at(Some(&header), 1_700_086_401),
        Admission::Rejected(RejectReason::Token(TokenError::Expired))
    );
    assert_eq!(
        guard.auth_validator_at(Some(&token), 1_700_000_000),
        Admission::Rejected(RejectReason::MissingCredential)
    );
    assert_eq!(guard.auth_validator_at(None, 1_700_000_000), Admission::Rejected(RejectReason::MissingCredential));
    assert_eq!(
        guard.auth_validator_at(Some("Bearer garbage"), 1_700_000_000),
        Admission::Rejected(RejectReason::Token(TokenError::Malformed))
    );
    let other = AccessGate::new(TokenService::new(secret("another-key")));
    assert_eq!(
        other.auth_validator_at(Some(&header), 1_700_000_000),
        Admission::Rejected(RejectReason::Token(TokenError::InvalidSignature))
    );
    assert_eq!(AccessGate::admission_from(Ok(claims.clone())), Admission::Admitted(claims));
    assert_eq!(
        AccessGate::admission_from(Err(TokenError::Expired)),
        Admission::Rejected(RejectReason::Token(TokenError::Expired))
    );
}

#[test]
fn role_guard() {
    let claims = Claims { sub: "alice".to_string(), role: "developer".to_string(), exp: 10 };
    assert_eq!(
        require_role(Admission::Admitted(claims.clone()), "developer"),
        Admission::Admitted(claims.clone())
    );
    assert_eq!(
        require_role(Admission::Admitted(claims), "admin"),
        Admission::Rejected(RejectReason::InsufficientRole)
    );
    assert_eq!(
        require_role(Admission::Rejected(RejectReason::MissingCredential), "admin"),
        Admission::Rejected(RejectReason::MissingCredential)
    );
    let refused = protected_endpoint(Admission::Rejected(RejectReason::InsufficientRole));
    assert_eq!(refused.status, 401);
    assert_eq!(refused.message, "insufficient role");
}

#[test]
fn protected_answers() {
    let claims = Claims { sub: "alice".to_string(), role: "admin".to_string(), exp: 99 };
    let ok = protected_endpoint(Admission::Admitted(claims));
    assert_eq!(ok.status, 200);
    assert_eq!(ok.message, "Access granted!");
    assert_eq!(ok.user, Some("alice".to_string()));
    assert_eq!(ok.role, Some("admin".to_string()));
    assert_eq!(ok.expires, Some(99));
    let cases = [
        (RejectReason::MissingCredential, "missing or malformed credential"),
        (RejectReason::Token(TokenError::Malformed), "malformed token"),
        (RejectReason::Token(TokenError::InvalidSignature), "invalid token signature"),
        (RejectReason::Token(TokenError::Expired), "token expired"),
        (RejectReason::Token(TokenError::ClockBeforeEpoch), "token cannot be judged"),
    ];
    for (reason, message) in cases {
        let reply = protected_endpoint(Admission::Rejected(reason));
        assert_eq!(reply.status, 401);
        assert_eq!(reply.message, message);
        assert_eq!(reply.user, None);
        assert_eq!(reply.role, None);
        assert_eq!(reply.expires, None);
    }
}

#[test]
fn reset_password_rotates_the_digest() {
    let auth = auth();
    let mut store = CredentialStore::new();
    let alice = auth.register(&mut store, "alice", "Secret123", Some("admin")).unwrap();
    let bob = auth.register(&mut store, "bob", "hunter2", None).unwrap();

    assert_eq!(auth.reset_password(&mut store, "alice", "NewSecret9"), Ok(true));
    let rotated = auth.authenticate_user(&store, "alice", "NewSecret9").unwrap();
    assert_eq!(rotated.id, alice.id);
    assert_eq!(rotated.username, "alice");
    assert_eq!(rotated.role, "admin");
    assert_ne!(rotated.password_hash, alice.password_hash);
    assert_eq!(auth.authenticate_user(&store, "alice", "Secret123"), None);
    assert_eq!(auth.authenticate_user(&store, "bob", "hunter2"), Some(bob.clone()));

    assert_eq!(auth.reset_password(&mut store, "carol", "NewSecret9"), Ok(false));
    assert_eq!(store.get_user_by_username("carol"), None);
    assert_eq!(auth.reset_password(&mut store, "bob", "  "), Err(AuthError::Validation));
    assert_eq!(auth.reset_password(&mut store, "bob", ""), Err(AuthError::Validation));
    assert_eq!(store.get_user_by_username("bob"), Some(bob));
}

#[test]
fn roles_are_assigned_from_the_closed_set() {
    let auth = auth();
    let mut store = CredentialStore::new();
    let bob = auth.register(&mut store, "bob", "hunter2", None).unwrap();
    assert_eq!(bob.role, "developer");

    assert_eq!(assign_role(&mut store, "bob", "admin"), Ok(true));
    let promoted = store.get_user_by_username("bob").unwrap();
    assert_eq!(promoted.role, "admin");
    assert_eq!(promoted.id, bob.id);
    assert_eq!(promoted.password_hash, bob.password_hash);
    assert_eq!(auth.authenticate_user(&store, "bob", "hunter2"), Some(promoted.clone()));

    assert_eq!(assign_role(&mut store, "bob", "root"), Err(AuthError::Validation));
    assert_eq!(store.get_user_by_username("bob"), Some(promoted));
    assert_eq!(assign_role(&mut store, "nobody", "admin"), Ok(false));
}

#[test]
fn store_replaces_one_identity_only() {
    let mut store = CredentialStore::new();
    let alice = store.insert("alice", "digest-a", "admin").unwrap();
    let bob = store.insert("bob", "digest-b", "developer").unwrap();
    assert!(store.update_password_hash("bob", "digest-c"));
    assert!(!store.update_password_hash("carol", "digest-c"));
    assert!(store.update_role("alice", "developer"));
    assert!(!store.update_role("carol", "developer"));
    assert_eq!(
        store.get_user_by_username("bob"),
        Some(User { password_hash: "digest-c".to_string(), ..bob })
    );
    assert_eq!(
        store.get_user_by_username("alice"),
        Some(User { role: "developer".to_string(), ..alice })
    );
    let carol = store.insert("carol", "digest-d", "developer").unwrap();
    assert_eq!(carol.id, 3);
}

#[test]
fn login_before_the_epoch_is_an_internal_failure() {
    let auth = auth();
    let tokens = tokens();
    let mut store = CredentialStore::new();
    let alice = auth.register(&mut store, "alice", "Secret123", None).unwrap();
    let good = request("alice", "Secret123");

    assert_eq!(login_on(&auth, &tokens, &store, &good, None), error_response(AuthError::Internal));
    assert_eq!(
        login_conclude_on(&auth, &tokens, &good, Ok(Some(alice)), None),
        error_response(AuthError::Internal)
    );
    // What needs no token is answered as at any other time.
    assert_eq!(
        login_on(&auth, &tokens, &store, &request("alice", "wrong"), None),
        error_response(AuthError::Unauthorized)
    );
    assert_eq!(
        login_on(&auth, &tokens, &store, &request("", "x"), None),
        error_response(AuthError::Validation)
    );
    assert_eq!(
        login_conclude_on(&auth, &tokens, &good, Err(StoreError::Unavailable), None),
        error_response(AuthError::StoreUnavailable)
    );
    assert_eq!(
        login_on(&auth, &tokens, &store, &good, Some(1_700_000_000)),
        login_at(&auth, &tokens, &store, &good, 1_700_000_000)
    );
}

#[test]
fn guard_admits_nothing_before_the_epoch() {
    let guard = AccessGate::new(tokens());
    let token = tokens().create_jwt_at("alice", "admin", 1_700_000_000).unwrap();
    let header = format!("Bearer {}", token);
    assert_eq!(
        guard.auth_validator_on(Some(&header), None),
        Admission::Rejected(RejectReason::Token(TokenError::ClockBeforeEpoch))
    );
    assert_eq!(
        guard.auth_validator_on(None, None),
        Admission::Rejected(RejectReason::MissingCredential)
    );
    assert_eq!(
        guard.auth_validator_on(Some("Bearer garbage"), None),
        Admission::Rejected(RejectReason::Token(TokenError::Malformed))
    );
    assert_eq!(
        guard.auth_validator_on(Some(&header), Some(1_700_000_000)),
        guard.auth_validator_at(Some(&header), 1_700_000_000)
    );
}

#[test]
fn stored_digest_is_not_the_password() {
    let auth = auth();
    let mut store = CredentialStore::new();
    let alice = auth.register(&mut store, "alice", "Secret123", Some("admin")).unwrap();
    let found = store.get_user_by_username("alice").unwrap();
    assert_eq!(found, alice);
    assert_eq!(found.username, "alice");
    assert_eq!(found.role, "admin");
    assert_ne!(found.password_hash, "Secret123");
    assert_eq!(found.password_hash.len(), 60);
    assert!(found.password_hash.starts_with("$2b$04$"));
    assert_eq!(auth.authenticate_user(&store, "alice", "Secret123"), Some(found));
}

#[test]
fn new_password_is_digested_with_the_work_factor() {
    let auth = auth();
    let digest = auth.prepare_password("NewSecret9").unwrap();
    assert!(digest.starts_with("$2b$04$"));
    assert_ne!(digest, "NewSecret9");
    assert_eq!(auth.prepare_password(""), Err(AuthError::Validation));
    assert_eq!(auth.prepare_password(" \t "), Err(AuthError::Validation));
    let user = User {
        id: 1,
        username: "alice".to_string(),
        password_hash: digest,
        role: "admin".to_string(),
    };
    assert_eq!(auth.verify_found(Some(user.clone()), "NewSecret9"), Some(user.clone()));
    assert_eq!(auth.verify_found(Some(user), "NewSecret8"), None);
}
