//! Password hashing: a slow, salted one-way digest of the password joined to
//! a pepper that only the server holds.

use vstd::prelude::*;
use vstd::utf8::encode_utf8;
use crate::errors::AuthError;
use crate::secret::Secret;

verus! {

/// Makes `bcrypt::BcryptError` known, so that a failed digest can be
/// carried to the place that reports it. Nothing is known of what it holds.
#[verifier::external_type_specification]
#[verifier::external_body]
pub struct ExBcryptError(bcrypt::BcryptError);

/// What `bcrypt::verify` answers for a password and a digest: whether the
/// digest belongs to the password, or nothing where the digest cannot be
/// read. The answer depends on the two texts alone.
pub uninterp spec fn bcrypt_verdict(password: Seq<char>, digest: Seq<char>) -> Option<bool>;

/// Calls `bcrypt::verify`. Nothing is proved of it: the contract names the
/// answer, `Ok` for a verdict and `Err` where the digest cannot be read.
#[verifier::external_body]
fn bcrypt_verify(password: &str, digest: &str) -> (r: Result<bool, bcrypt::BcryptError>)
    ensures
        match r {
            Ok(b) => bcrypt_verdict(password@, digest@) == Some(b),
            Err(_) => bcrypt_verdict(password@, digest@).is_none(),
        },
{
    bcrypt::verify(password, digest)
}

/// Calls `bcrypt::hash`, which draws a fresh random salt on every call and
/// embeds salt and cost in the digest. Nothing is proved of it. The contract
/// claims that a digest it returns is one that `bcrypt::verify` accepts for
/// the same password, and that it has the shape in which bcrypt writes a
/// digest of that cost. It fails where no randomness can be had, or for a
/// cost outside 4..=31.
#[verifier::external_body]
fn bcrypt_hash(password: &str, cost: u32) -> (r: Result<String, bcrypt::BcryptError>)
    ensures
        r matches Ok(d) ==> bcrypt_verdict(password@, d@) == Some(true),
        r matches Ok(d) ==> digest_shape(d@, cost),
{
    bcrypt::hash(password, cost)
}

/// Whether `digest` has the shape of a bcrypt digest of work factor `cost`:
/// 60 characters that open with `$2b$`, the work factor in two digits, and
/// `$`; salt and hash follow.
pub open spec fn digest_shape(digest: Seq<char>, cost: u32) -> bool {
    &&& digest.len() == 60
    &&& digest[0] == '$'
    &&& digest[1] == '2'
    &&& digest[2] == 'b'
    &&& digest[3] == '$'
    &&& digest[4] as u32 == 48 + cost / 10
    &&& digest[5] as u32 == 48 + cost % 10
    &&& digest[6] == '$'
}

/// A digest differs from every text that has not the shape of a digest:
/// from every password of another length than 60, to begin with.
pub proof fn lemma_digest_is_not_plaintext(digest: Seq<char>, cost: u32, plaintext: Seq<char>)
    requires
        digest_shape(digest, cost),
        !digest_shape(plaintext, cost),
    ensures
        digest != plaintext,
{
}

/// The smallest work factor the digest accepts.
pub const MIN_COST: u32 = 4;

/// The largest work factor the digest accepts.
pub const MAX_COST: u32 = 31;

/// The work factor used unless another is asked for.
pub const DEFAULT_COST: u32 = 12;

/// The most bytes a pepper may have. The digest reads 72 bytes of what it
/// is given; a pepper of this size leaves the larger part to the password.
pub const MAX_PEPPER_BYTES: usize = 32;

/// Whether `pepper` is short enough to leave the digest room for the
/// password.
pub open spec fn pepper_fits(pepper: Seq<char>) -> bool {
    encode_utf8(pepper).len() <= MAX_PEPPER_BYTES
}

/// Hashes and verifies passwords under one pepper and one work factor.
pub struct PasswordHasher {
    pepper: Secret,
    cost: u32,
}

impl PasswordHasher {
    #[verifier::type_invariant]
    spec fn usable(&self) -> bool {
        MIN_COST <= self.cost <= MAX_COST && pepper_fits(self.pepper@)
    }

    /// The pepper joined to every password.
    pub closed spec fn pepper(&self) -> Seq<char> {
        self.pepper@
    }

    /// The work factor of new digests.
    pub closed spec fn cost(&self) -> u32 {
        self.cost
    }

    /// The text that is digested for `password`: the pepper, then the
    /// password.
    pub open spec fn peppered(&self, password: Seq<char>) -> Seq<char> {
        self.pepper() + password
    }

    /// Whether `digest` belongs to `password` under this pepper. A digest
    /// that cannot be read belongs to no password.
    pub open spec fn spec_verify(&self, password: Seq<char>, digest: Seq<char>) -> bool {
        bcrypt_verdict(self.peppered(password), digest) == Some(true)
    }

    /// Whether `digest` is one this hasher makes for `password`: it belongs
    /// to the password, and is written with the hasher's work factor.
    pub open spec fn digests(&self, password: Seq<char>, digest: Seq<char>) -> bool {
        self.spec_verify(password, digest) && digest_shape(digest, self.cost())
    }

    /// A hasher with the default work factor, if the pepper is short enough.
    pub fn new(pepper: Secret) -> (h: Option<Self>)
        ensures
            h is Some <==> pepper_fits(pepper@),
            h matches Some(hasher) ==> hasher.pepper() == pepper@ && hasher.cost() == DEFAULT_COST,
    {
        Self::with_cost(pepper, DEFAULT_COST)
    }

    /// A hasher with the given work factor, if the digest accepts it and
    /// the pepper is short enough.
    pub fn with_cost(pepper: Secret, cost: u32) -> (h: Option<Self>)
        ensures
            h is Some <==> MIN_COST <= cost <= MAX_COST && pepper_fits(pepper@),
            h matches Some(hasher) ==> hasher.pepper() == pepper@ && hasher.cost() == cost,
    {
        if MIN_COST <= cost && cost <= MAX_COST && pepper.expose().as_bytes().len()
            <= MAX_PEPPER_BYTES {
            Some(PasswordHasher { pepper, cost })
        } else {
            None
        }
    }

    /// Joins the pepper and the password.
    fn pepper_password(&self, password: &str) -> (salted: String)
        ensures
            salted@ == self.peppered(password@),
    {
        let mut salted = self.pepper.expose().to_owned();
        salted.append(password);
        salted
    }

    /// What the hasher reports for the outcome of the digest primitive: the
    /// digest itself, or an internal failure that says nothing of the cause.
    pub fn digest_from(outcome: Result<String, bcrypt::BcryptError>) -> (r: Result<
        String,
        AuthError,
    >)
        ensures
            match outcome {
                Ok(d) => r == Ok::<_, AuthError>(d),
                Err(_) => r == Err::<String, _>(AuthError::Internal),
            },
    {
        match outcome {
            Ok(d) => Ok(d),
            Err(_) => Err(AuthError::Internal),
        }
    }

    /// Digests `password`. An empty password is refused before anything is
    /// digested. Two calls on one password give different digests, since each
    /// draws its own salt; every digest returned verifies against the
    /// password it was made from, and carries the hasher's work factor.
    pub fn hash_password(&self, password: &str) -> (r: Result<String, AuthError>)
        ensures
            password@.len() == 0 ==> r == Err::<String, _>(AuthError::Validation),
            password@.len() > 0 ==> match r {
                Ok(digest) => self.digests(password@, digest@),
                Err(e) => e == AuthError::Internal,
            },
    {
        if password.is_empty() {
            return Err(AuthError::Validation);
        }
        let salted = self.pepper_password(password);
        Self::digest_from(bcrypt_hash(salted.as_str(), self.cost))
    }

    /// Tells whether `digest` belongs to `password`. A malformed digest is
    /// no error: it belongs to no password.
    pub fn verify_password(&self, password: &str, digest: &str) -> (ok: bool)
        ensures
            ok == self.spec_verify(password@, digest@),
    {
        let salted = self.pepper_password(password);
        match bcrypt_verify(salted.as_str(), digest) {
            Ok(verdict) => verdict,
            Err(_) => false,
        }
    }
}

} // verus!
