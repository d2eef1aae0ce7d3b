//! Authentication and registration: turning a username and a password into
//! an identity, or into a refusal that tells an attacker nothing.

use vstd::prelude::*;
use crate::errors::AuthError;
use crate::models::{User, UserView};
use crate::password::{digest_shape, PasswordHasher};
use crate::roles::{default_role, is_known_role, known_role, role_or_default};
use crate::store::{
    find_user, lemma_find_after_push, lemma_find_after_rehash, option_user, with_password_hash,
    with_role_of, CredentialStore, StoreError,
};
use crate::text::{blank, is_blank, option_str};

verus! {

/// A new identity as it is handed to the store: the password is digested.
#[derive(Debug, PartialEq, Eq)]
pub struct Registration {
    pub username: String,
    pub password_hash: String,
    pub role: String,
}

/// Whether a registration has the shape the service accepts: a username and
/// a password that are not blank, and a known role if one is asked for.
pub open spec fn registration_valid(
    username: Seq<char>,
    password: Seq<char>,
    role: Option<Seq<char>>,
) -> bool {
    &&& !blank(username)
    &&& !blank(password)
    &&& role matches Some(r) ==> known_role(r)
}

/// Authenticates and registers identities with one password hasher.
pub struct AuthenticationService {
    hasher: PasswordHasher,
}

impl AuthenticationService {
    /// The hasher that digests and verifies the passwords.
    pub closed spec fn hasher(&self) -> PasswordHasher {
        self.hasher
    }

    /// A service that digests passwords with `hasher`.
    pub fn new(hasher: PasswordHasher) -> (service: Self)
        ensures
            service.hasher() == hasher,
    {
        AuthenticationService { hasher }
    }

    /// The identity a lookup and a password yield: the identity that was
    /// found, if its digest belongs to the password. An unknown username
    /// and a wrong password both yield nothing.
    pub open spec fn spec_authenticate(
        &self,
        found: Option<UserView>,
        password: Seq<char>,
    ) -> Option<UserView> {
        match found {
            Some(user) => if self.hasher().spec_verify(password, user.password_hash) {
                Some(user)
            } else {
                None
            },
            None => None,
        }
    }

    /// Judges a password against the identity a store found for a username.
    pub fn verify_found(&self, found: Option<User>, password: &str) -> (r: Option<User>)
        ensures
            option_user(r) == self.spec_authenticate(option_user(found), password@),
    {
        match found {
            Some(user) => {
                if self.hasher.verify_password(password, user.password_hash.as_str()) {
                    Some(user)
                } else {
                    None
                }
            },
            None => None,
        }
    }

    /// Authenticates `username` with `password` against `store`.
    pub fn authenticate_user(&self, store: &CredentialStore, username: &str, password: &str) -> (r:
        Option<User>)
        ensures
            option_user(r) == self.spec_authenticate(find_user(store@, username@), password@),
    {
        self.verify_found(store.get_user_by_username(username), password)
    }

    /// Prepares a registration for the store: tests its shape, then digests
    /// the password. Where no role is asked for, the identity becomes a
    /// developer.
    pub fn prepare_registration(&self, username: &str, password: &str, role: Option<&str>) -> (r:
        Result<Registration, AuthError>)
        ensures
            !registration_valid(username@, password@, option_str(role)) ==> r == Err::<
                Registration,
                _,
            >(AuthError::Validation),
            registration_valid(username@, password@, option_str(role)) ==> match r {
                Ok(reg) => {
                    &&& reg.username@ == username@
                    &&& reg.role@ == role_or_default(option_str(role))
                    &&& self.hasher().digests(password@, reg.password_hash@)
                },
                Err(e) => e == AuthError::Internal,
            },
    {
        if is_blank(username) || is_blank(password) {
            return Err(AuthError::Validation);
        }
        let role_text = match role {
            Some(asked) => {
                if !is_known_role(asked) {
                    return Err(AuthError::Validation);
                }
                asked
            },
            None => default_role(),
        };
        match self.hasher.hash_password(password) {
            Ok(password_hash) => Ok(
                Registration {
                    username: username.to_owned(),
                    password_hash,
                    role: role_text.to_owned(),
                },
            ),
            Err(_) => Err(AuthError::Internal),
        }
    }

    /// What a client is told for the answer of the store to an insertion: a
    /// taken username is a conflict, never an internal failure.
    pub fn conclude_registration(outcome: Result<User, StoreError>) -> (r: Result<User, AuthError>)
        ensures
            match outcome {
                Ok(user) => r == Ok::<_, AuthError>(user),
                Err(StoreError::UniqueViolation) => r == Err::<User, _>(AuthError::Conflict),
                Err(StoreError::Unavailable) => r == Err::<User, _>(AuthError::StoreUnavailable),
            },
    {
        match outcome {
            Ok(user) => Ok(user),
            Err(StoreError::UniqueViolation) => Err(AuthError::Conflict),
            Err(StoreError::Unavailable) => Err(AuthError::StoreUnavailable),
        }
    }

    /// Digests a new password for an identity that exists already. A blank
    /// password is refused.
    pub fn prepare_password(&self, password: &str) -> (r: Result<String, AuthError>)
        ensures
            blank(password@) ==> r == Err::<String, _>(AuthError::Validation),
            !blank(password@) ==> match r {
                Ok(digest) => self.hasher().digests(password@, digest@),
                Err(e) => e == AuthError::Internal,
            },
    {
        if is_blank(password) {
            return Err(AuthError::Validation);
        }
        match self.hasher.hash_password(password) {
            Ok(digest) => Ok(digest),
            Err(_) => Err(AuthError::Internal),
        }
    }

    /// Whether `after` is `before` with the digest of `username` replaced
    /// by one that this hasher makes for `password`.
    pub open spec fn rotated(
        &self,
        before: Seq<UserView>,
        after: Seq<UserView>,
        username: Seq<char>,
        password: Seq<char>,
    ) -> bool {
        exists|digest: Seq<char>|
            self.hasher().digests(password, digest) && after == #[trigger] with_password_hash(
                before,
                username,
                digest,
            )
    }

    /// Replaces the password of the identity that goes by `username`, and
    /// tells whether there is such an identity. The store changes by the
    /// digest of that identity alone; a blank password is refused.
    pub fn reset_password(&self, store: &mut CredentialStore, username: &str, password: &str) -> (r:
        Result<bool, AuthError>)
        ensures
            final(store).next_id() == old(store).next_id(),
            r is Err ==> final(store)@ == old(store)@,
            blank(password@) ==> r == Err::<bool, _>(AuthError::Validation),
            !blank(password@) ==> match r {
                Ok(updated) => {
                    &&& updated == (find_user(old(store)@, username@) is Some)
                    &&& self.rotated(old(store)@, final(store)@, username@, password@)
                },
                Err(e) => e == AuthError::Internal,
            },
    {
        match self.prepare_password(password) {
            Ok(digest) => {
                let updated = store.update_password_hash(username, digest.as_str());
                Ok(updated)
            },
            Err(e) => Err(e),
        }
    }

    /// Registers a new identity in `store`. The store changes only when the
    /// registration succeeds, and then by the new identity alone.
    pub fn register(
        &self,
        store: &mut CredentialStore,
        username: &str,
        password: &str,
        role: Option<&str>,
    ) -> (r: Result<User, AuthError>)
        ensures
            !registration_valid(username@, password@, option_str(role)) ==> r == Err::<User, _>(
                AuthError::Validation,
            ),
            r is Err ==> final(store)@ == old(store)@ && final(store).next_id() == old(
                store,
            ).next_id(),
            registration_valid(username@, password@, option_str(role)) ==> match r {
                Ok(user) => {
                    &&& find_user(old(store)@, username@) is None
                    &&& final(store)@ == old(store)@.push(user@)
                    &&& user@.id == old(store).next_id()
                    &&& user@.username == username@
                    &&& user@.role == role_or_default(option_str(role))
                    &&& known_role(user@.role)
                    &&& self.hasher().digests(password@, user@.password_hash)
                },
                Err(AuthError::Conflict) => find_user(old(store)@, username@) is Some,
                Err(AuthError::StoreUnavailable) => find_user(old(store)@, username@) is None
                    && old(store).next_id() == i64::MAX,
                Err(AuthError::Internal) => true,
                Err(_) => false,
            },
    {
        match self.prepare_registration(username, password, role) {
            Err(e) => Err(e),
            Ok(reg) => Self::conclude_registration(
                store.insert(reg.username.as_str(), reg.password_hash.as_str(), reg.role.as_str()),
            ),
        }
    }
}

/// Gives the identity that goes by `username` another role, and tells
/// whether there is such an identity. A role outside the closed set is
/// refused, and the store stays as it was.
pub fn assign_role(store: &mut CredentialStore, username: &str, role: &str) -> (r: Result<
    bool,
    AuthError,
>)
    ensures
        final(store).next_id() == old(store).next_id(),
        !known_role(role@) ==> r == Err::<bool, _>(AuthError::Validation) && final(store)@ == old(
            store,
        )@,
        known_role(role@) ==> r == Ok::<_, AuthError>(find_user(old(store)@, username@) is Some)
            && final(store)@ == with_role_of(old(store)@, username@, role@),
{
    if !is_known_role(role) {
        return Err(AuthError::Validation);
    }
    Ok(store.update_role(username, role))
}

/// After a password was reset, the new password authenticates as the same
/// identity, now with the new digest.
pub proof fn lemma_reset_password_authenticates(
    auth: AuthenticationService,
    users: Seq<UserView>,
    username: Seq<char>,
    password: Seq<char>,
    digest: Seq<char>,
)
    requires
        find_user(users, username) is Some,
        auth.hasher().spec_verify(password, digest),
    ensures
        auth.spec_authenticate(
            find_user(with_password_hash(users, username, digest), username),
            password,
        ) == Some(
            UserView {
                id: find_user(users, username)->0.id,
                username: find_user(users, username)->0.username,
                password_hash: digest,
                role: find_user(users, username)->0.role,
            },
        ),
{
    lemma_find_after_rehash(users, username, digest, username);
}

/// Whoever registered is found and can log in: once an identity has joined
/// under a free username with the digest that the hasher made of a
/// password, it is the identity found under that username, and that
/// username and password authenticate as it. What is stored is not the
/// password, unless the password itself is written like a digest.
pub proof fn lemma_registered_user_authenticates(
    auth: AuthenticationService,
    users: Seq<UserView>,
    user: UserView,
    password: Seq<char>,
)
    requires
        find_user(users, user.username) is None,
        auth.hasher().digests(password, user.password_hash),
    ensures
        find_user(users.push(user), user.username) == Some(user),
        auth.spec_authenticate(find_user(users.push(user), user.username), password) == Some(user),
        !digest_shape(password, auth.hasher().cost()) ==> user.password_hash != password,
        password.len() != 60 ==> user.password_hash != password,
{
    lemma_find_after_push(users, user, user.username);
}

/// An unknown username and a wrong password are refused alike: neither
/// yields an identity.
pub proof fn lemma_refusals_alike(
    auth: AuthenticationService,
    users: Seq<UserView>,
    unknown: Seq<char>,
    known: Seq<char>,
    any_password: Seq<char>,
    wrong_password: Seq<char>,
)
    requires
        find_user(users, unknown) is None,
        find_user(users, known) matches Some(user) && !auth.hasher().spec_verify(
            wrong_password,
            user.password_hash,
        ),
    ensures
        auth.spec_authenticate(find_user(users, unknown), any_password) == auth.spec_authenticate(
            find_user(users, known),
            wrong_password,
        ),
        auth.spec_authenticate(find_user(users, unknown), any_password) is None,
{
}

} // verus!
