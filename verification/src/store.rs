//! The credential store: the identities the service knows, one per username.
//!
//! This store keeps its identities in memory. A persistent store offers the
//! same two operations, and the services accept the answers of either.

use vstd::prelude::*;
use crate::models::{User, UserView};
use crate::text::same_text;

verus! {

/// Why the store refused an operation.
#[derive(Debug, Clone, Copy, PartialEq, Eq, Structural)]
pub enum StoreError {
    /// An identity with that username exists already.
    UniqueViolation,
    /// The store cannot serve the operation for now.
    Unavailable,
}

/// The first identity among `users` that goes by `username`, if any.
pub open spec fn find_user(users: Seq<UserView>, username: Seq<char>) -> Option<UserView>
    decreases users.len(),
{
    if users.len() == 0 {
        None
    } else if users[0].username == username {
        Some(users[0])
    } else {
        find_user(users.drop_first(), username)
    }
}

/// Whether no two of `users` share a username.
pub open spec fn usernames_unique(users: Seq<UserView>) -> bool {
    forall|i: int, j: int|
        0 <= i < j < users.len() ==> (#[trigger] users[i]).username != (
        #[trigger] users[j]).username
}

/// The views of a sequence of identities.
pub open spec fn user_views(users: Seq<User>) -> Seq<UserView> {
    users.map_values(|u: User| u@)
}

/// The view of an optional identity.
pub open spec fn option_user(user: Option<User>) -> Option<UserView> {
    match user {
        Some(u) => Some(u@),
        None => None,
    }
}

/// `find_user` yields an identity exactly when one of `users` has the name,
/// and then one that has it.
pub proof fn lemma_find_user(users: Seq<UserView>, username: Seq<char>)
    ensures
        find_user(users, username) is None <==> forall|i: int|
            0 <= i < users.len() ==> (#[trigger] users[i]).username != username,
        find_user(users, username) matches Some(u) ==> u.username == username && users.contains(u),
    decreases users.len(),
{
    if users.len() > 0 {
        let rest = users.drop_first();
        lemma_find_user(rest, username);
        if users[0].username != username {
            assert forall|i: int| 0 <= i < rest.len() implies rest[i] == users[i + 1] by {}
            if find_user(rest, username) is None {
                assert forall|i: int| 0 <= i < users.len() implies (#[trigger] users[i]).username
                    != username by {
                    if i > 0 {
                        assert(rest[i - 1] == users[i]);
                    }
                }
            } else {
                let u = find_user(rest, username)->0;
                let k = choose|k: int| 0 <= k < rest.len() && rest[k] == u;
                assert(users[k + 1] == u);
            }
        }
    }
}

/// An identity that joins under a free username is the one found under
/// that name afterwards, and every other lookup stays as it was.
pub proof fn lemma_find_after_push(users: Seq<UserView>, user: UserView, username: Seq<char>)
    requires
        find_user(users, user.username) is None,
    ensures
        find_user(users.push(user), user.username) == Some(user),
        username != user.username ==> find_user(users.push(user), username) == find_user(
            users,
            username,
        ),
    decreases users.len(),
{
    let grown = users.push(user);
    if users.len() == 0 {
        assert(grown.drop_first() =~= Seq::<UserView>::empty());
    } else {
        assert(grown.drop_first() =~= users.drop_first().push(user));
        assert(grown[0] == users[0]);
        lemma_find_after_push(users.drop_first(), user, username);
    }
}

/// `users` with the digest of the identity that goes by `username`
/// replaced, and everything else as it was.
pub open spec fn with_password_hash(
    users: Seq<UserView>,
    username: Seq<char>,
    password_hash: Seq<char>,
) -> Seq<UserView> {
    Seq::new(
        users.len(),
        |i: int|
            if users[i].username == username {
                UserView {
                    id: users[i].id,
                    username: users[i].username,
                    password_hash,
                    role: users[i].role,
                }
            } else {
                users[i]
            },
    )
}

/// `users` with the role of the identity that goes by `username` replaced,
/// and everything else as it was.
pub open spec fn with_role_of(users: Seq<UserView>, username: Seq<char>, role: Seq<char>) -> Seq<
    UserView,
> {
    Seq::new(
        users.len(),
        |i: int|
            if users[i].username == username {
                UserView {
                    id: users[i].id,
                    username: users[i].username,
                    password_hash: users[i].password_hash,
                    role,
                }
            } else {
                users[i]
            },
    )
}

/// After a digest was replaced, the identity is found with the new digest,
/// and every other identity is found as before.
pub proof fn lemma_find_after_rehash(
    users: Seq<UserView>,
    username: Seq<char>,
    password_hash: Seq<char>,
    other: Seq<char>,
)
    ensures
        find_user(with_password_hash(users, username, password_hash), username) == match find_user(
            users,
            username,
        ) {
            Some(u) => Some(
                UserView { id: u.id, username: u.username, password_hash, role: u.role },
            ),
            None => None,
        },
        other != username ==> find_user(with_password_hash(users, username, password_hash), other)
            == find_user(users, other),
    decreases users.len(),
{
    let changed = with_password_hash(users, username, password_hash);
    if users.len() > 0 {
        assert(changed.drop_first() =~= with_password_hash(
            users.drop_first(),
            username,
            password_hash,
        ));
        lemma_find_after_rehash(users.drop_first(), username, password_hash, other);
    }
}

/// The identities of the service, in the order in which they registered.
pub struct CredentialStore {
    users: Vec<User>,
    next_id: i64,
}

impl CredentialStore {
    #[verifier::type_invariant]
    spec fn unique(&self) -> bool {
        usernames_unique(user_views(self.users@))
    }

    /// The stored identities, oldest first.
    pub closed spec fn view(&self) -> Seq<UserView> {
        user_views(self.users@)
    }

    /// The identifier the next identity gets.
    pub closed spec fn next_id(&self) -> i64 {
        self.next_id
    }

    /// A store without identities, which numbers them from 1.
    pub fn new() -> (store: Self)
        ensures
            store@ == Seq::<UserView>::empty(),
            store.next_id() == 1,
    {
        let store = CredentialStore { users: Vec::new(), next_id: 1 };
        assert(user_views(store.users@) =~= Seq::<UserView>::empty());
        store
    }

    /// Looks an identity up by its username. At most one identity goes by
    /// any username.
    pub fn get_user_by_username(&self, username: &str) -> (found: Option<User>)
        ensures
            option_user(found) == find_user(self@, username@),
            usernames_unique(self@),
    {
        proof {
            use_type_invariant(self);
        }
        let ghost all = user_views(self.users@);
        assert(all.skip(0) == all);
        let mut i: usize = 0;
        while i < self.users.len()
            invariant
                0 <= i <= self.users.len(),
                all == user_views(self.users@),
                usernames_unique(all),
                find_user(all, username@) == find_user(all.skip(i as int), username@),
            decreases self.users.len() - i,
        {
            proof {
                let rest = all.skip(i as int);
                assert(rest[0] == self.users@[i as int]@);
                assert(rest.drop_first() == all.skip(i + 1));
            }
            if same_text(self.users[i].username.as_str(), username) {
                return Some(self.users[i].clone());
            }
            i = i + 1;
        }
        None
    }

    /// The place of the identity that goes by `username`.
    fn index_of(&self, username: &str) -> (at: Option<usize>)
        ensures
            match at {
                Some(i) => i < self@.len() && self@[i as int].username == username@
                    && self.users@[i as int]@ == self@[i as int],
                None => find_user(self@, username@) is None,
            },
    {
        let ghost all = user_views(self.users@);
        let mut i: usize = 0;
        while i < self.users.len()
            invariant
                0 <= i <= self.users.len(),
                all == user_views(self.users@),
                forall|j: int| 0 <= j < i ==> (#[trigger] all[j]).username != username@,
            decreases self.users.len() - i,
        {
            if same_text(self.users[i].username.as_str(), username) {
                return Some(i);
            }
            i = i + 1;
        }
        proof {
            lemma_find_user(all, username@);
        }
        None
    }

    /// Puts `user` in the place `at`, where an identity of the same name
    /// stands.
    fn replace(&mut self, at: usize, user: User)
        requires
            at < old(self)@.len(),
            old(self)@[at as int].username == user@.username,
        ensures
            final(self)@ == old(self)@.update(at as int, user@),
            final(self).next_id() == old(self).next_id(),
    {
        proof {
            use_type_invariant(&*self);
        }
        let mut taken = CredentialStore { users: Vec::new(), next_id: self.next_id };
        assert(user_views(taken.users@) =~= Seq::<UserView>::empty());
        core::mem::swap(self, &mut taken);
        let CredentialStore { users, next_id } = taken;
        let mut users = users;
        let ghost before = user_views(users@);
        users.set(at, user);
        proof {
            let after = user_views(users@);
            assert(after =~= before.update(at as int, user@));
            assert forall|i: int, j: int| 0 <= i < j < after.len() implies (
            #[trigger] after[i]).username != (#[trigger] after[j]).username by {
                assert(after[i].username == before[i].username);
                assert(after[j].username == before[j].username);
            }
        }
        *self = CredentialStore { users, next_id };
    }

    /// Replaces the digest of the identity that goes by `username`, and
    /// tells whether there is such an identity.
    pub fn update_password_hash(&mut self, username: &str, password_hash: &str) -> (updated: bool)
        ensures
            updated == (find_user(old(self)@, username@) is Some),
            final(self)@ == with_password_hash(old(self)@, username@, password_hash@),
            final(self).next_id() == old(self).next_id(),
    {
        proof {
            use_type_invariant(&*self);
            lemma_find_user(self@, username@);
        }
        match self.index_of(username) {
            None => {
                assert(with_password_hash(self@, username@, password_hash@) =~= self@);
                false
            },
            Some(at) => {
                let changed = User {
                    id: self.users[at].id,
                    username: self.users[at].username.clone(),
                    password_hash: password_hash.to_owned(),
                    role: self.users[at].role.clone(),
                };
                assert(with_password_hash(self@, username@, password_hash@) =~= self@.update(
                    at as int,
                    changed@,
                ));
                self.replace(at, changed);
                true
            },
        }
    }

    /// Replaces the role of the identity that goes by `username`, and tells
    /// whether there is such an identity.
    pub fn update_role(&mut self, username: &str, role: &str) -> (updated: bool)
        ensures
            updated == (find_user(old(self)@, username@) is Some),
            final(self)@ == with_role_of(old(self)@, username@, role@),
            final(self).next_id() == old(self).next_id(),
    {
        proof {
            use_type_invariant(&*self);
            lemma_find_user(self@, username@);
        }
        match self.index_of(username) {
            None => {
                assert(with_role_of(self@, username@, role@) =~= self@);
                false
            },
            Some(at) => {
                let changed = User {
                    id: self.users[at].id,
                    username: self.users[at].username.clone(),
                    password_hash: self.users[at].password_hash.clone(),
                    role: role.to_owned(),
                };
                assert(with_role_of(self@, username@, role@) =~= self@.update(at as int, changed@));
                self.replace(at, changed);
                true
            },
        }
    }

    /// What inserting into `users` yields when `next_id` is the next
    /// identifier: the new identity, or why it cannot be stored.
    pub open spec fn spec_insert(
        users: Seq<UserView>,
        next_id: i64,
        username: Seq<char>,
        password_hash: Seq<char>,
        role: Seq<char>,
    ) -> Result<UserView, StoreError> {
        if find_user(users, username) is Some {
            Err(StoreError::UniqueViolation)
        } else if next_id == i64::MAX {
            Err(StoreError::Unavailable)
        } else {
            Ok(UserView { id: next_id, username, password_hash, role })
        }
    }

    /// Stores a new identity under the next identifier. A username that is
    /// taken is refused, and the store stays as it was.
    pub fn insert(&mut self, username: &str, password_hash: &str, role: &str) -> (r: Result<
        User,
        StoreError,
    >)
        ensures
            match r {
                Ok(user) => {
                    &&& Self::spec_insert(
                        old(self)@,
                        old(self).next_id(),
                        username@,
                        password_hash@,
                        role@,
                    ) == Ok::<_, StoreError>(user@)
                    &&& final(self)@ == old(self)@.push(user@)
                    &&& final(self).next_id() == old(self).next_id() + 1
                    &&& usernames_unique(final(self)@)
                },
                Err(e) => {
                    &&& Self::spec_insert(
                        old(self)@,
                        old(self).next_id(),
                        username@,
                        password_hash@,
                        role@,
                    ) == Err::<UserView, _>(e)
                    &&& final(self)@ == old(self)@
                    &&& final(self).next_id() == old(self).next_id()
                },
            },
    {
        proof {
            use_type_invariant(&*self);
        }
        if self.get_user_by_username(username).is_some() {
            return Err(StoreError::UniqueViolation);
        }
        if self.next_id == i64::MAX {
            return Err(StoreError::Unavailable);
        }
        let user = User {
            id: self.next_id,
            username: username.to_owned(),
            password_hash: password_hash.to_owned(),
            role: role.to_owned(),
        };
        let stored = user.clone();
        proof {
            let before = user_views(self.users@);
            lemma_find_user(before, username@);
            assert(user_views(self.users@.push(stored)) =~= before.push(stored@));
            assert(usernames_unique(before.push(stored@)));
        }
        let mut taken = CredentialStore { users: Vec::new(), next_id: self.next_id };
        assert(user_views(taken.users@) =~= Seq::<UserView>::empty());
        core::mem::swap(self, &mut taken);
        let CredentialStore { users, next_id } = taken;
        let mut users = users;
        users.push(stored);
        *self = CredentialStore { users, next_id: next_id + 1 };
        Ok(user)
    }
}

} // verus!
