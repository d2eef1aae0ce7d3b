//! Signed, expiring tokens: issuing them for an identity, and recovering the
//! claims of one that is presented.
//!
//! Tokens are signed with HMAC-SHA256 under the server's signing key. The
//! validator pins that algorithm; it never trusts the one a token names.

use vstd::prelude::*;
use crate::errors::{AuthError, TokenError};
use crate::models::{Claims, ClaimsView, User};
use crate::secret::Secret;

verus! {

/// Makes `jsonwebtoken::errors::Error` known, so that a failed encoding can
/// be carried to the place that reports it. Nothing is known of what it
/// holds.
#[verifier::external_type_specification]
#[verifier::external_body]
pub struct ExTokenCodecError(jsonwebtoken::errors::Error);

/// Why a token could not be decoded.
#[derive(Debug, Clone, Copy, PartialEq, Eq, Structural)]
pub enum DecodeFailure {
    /// The signature is not the one the signing key gives for the content.
    BadSignature,
    /// The token names another algorithm than the pinned one.
    WrongAlgorithm,
    /// The token is not three readable segments of a signed set of claims.
    Unreadable,
}

/// The claims found in a decoded token, each present or not.
#[derive(Debug, Clone, PartialEq, Eq)]
pub struct RawClaims {
    pub sub: Option<String>,
    pub role: Option<String>,
    pub exp: Option<u64>,
}

/// Decoded claims with their strings as character sequences.
pub ghost struct RawClaimsView {
    pub sub: Option<Seq<char>>,
    pub role: Option<Seq<char>>,
    pub exp: Option<u64>,
}

impl View for RawClaims {
    type V = RawClaimsView;

    open spec fn view(&self) -> RawClaimsView {
        RawClaimsView {
            sub: match self.sub {
                Some(s) => Some(s@),
                None => None,
            },
            role: match self.role {
                Some(s) => Some(s@),
                None => None,
            },
            exp: self.exp,
        }
    }
}

/// The token that `jsonwebtoken::encode` gives for the three claims under
/// `key`. It depends on these values alone.
pub uninterp spec fn hs256_encoding(
    sub: Seq<char>,
    role: Seq<char>,
    exp: u64,
    key: Seq<char>,
) -> Seq<char>;

/// What `jsonwebtoken::decode` finds in `token` under `key` with HS256
/// pinned and the expiry left unjudged. It depends on these values alone.
pub uninterp spec fn hs256_decoding(token: Seq<char>, key: Seq<char>) -> Result<
    RawClaimsView,
    DecodeFailure,
>;

/// Whether `token` decodes under `key` to exactly the three claims.
pub open spec fn carries(
    token: Seq<char>,
    key: Seq<char>,
    sub: Seq<char>,
    role: Seq<char>,
    exp: u64,
) -> bool {
    hs256_decoding(token, key) == Ok::<_, DecodeFailure>(
        RawClaimsView { sub: Some(sub), role: Some(role), exp: Some(exp) },
    )
}

/// Calls `jsonwebtoken::encode` with the default header (HS256) on the
/// claims `sub`, `role` and `exp`. Nothing is proved of it. The contract
/// claims that the call succeeds, as signing three such claims with an
/// HMAC key cannot fail; it names the token, which is never empty; and it
/// claims that the token decodes under the same key to the claims it was
/// made from.
#[verifier::external_body]
fn hs256_encode(sub: &str, role: &str, exp: u64, key: &str) -> (r: Result<
    String,
    jsonwebtoken::errors::Error,
>)
    ensures
        r is Ok,
        r matches Ok(token) ==> token@ == hs256_encoding(sub@, role@, exp, key@),
        r matches Ok(token) ==> token@.len() > 0,
        r matches Ok(token) ==> carries(token@, key@, sub@, role@, exp),
{
    let mut claims = serde_json::Map::new();
    claims.insert("sub".to_owned(), serde_json::Value::from(sub));
    claims.insert("role".to_owned(), serde_json::Value::from(role));
    claims.insert("exp".to_owned(), serde_json::Value::from(exp));
    let signing_key = jsonwebtoken::EncodingKey::from_secret(key.as_bytes());
    jsonwebtoken::encode(&jsonwebtoken::Header::default(), &claims, &signing_key)
}

/// Calls `jsonwebtoken::decode` with HS256 as the only accepted algorithm
/// and without its expiry test, which reads the clock; the other settings
/// are those of `Validation::new`. Nothing is proved of it: the contract
/// names what it finds. The three claims are handed out as they stand in
/// the token. Of the failures, a refused signature and a foreign algorithm
/// are told apart by their kind; every other one counts as unreadable.
#[verifier::external_body]
fn hs256_decode(token: &str, key: &str) -> (r: Result<RawClaims, DecodeFailure>)
    ensures
        match r {
            Ok(raw) => hs256_decoding(token@, key@) == Ok::<_, DecodeFailure>(raw@),
            Err(e) => hs256_decoding(token@, key@) == Err::<RawClaimsView, _>(e),
        },
{
    let mut pinned = jsonwebtoken::Validation::new(jsonwebtoken::Algorithm::HS256);
    pinned.validate_exp = false;
    let verifying_key = jsonwebtoken::DecodingKey::from_secret(key.as_bytes());
    match jsonwebtoken::decode::<serde_json::Value>(token, &verifying_key, &pinned) {
        Ok(data) => Ok(RawClaims {
            sub: data.claims.get("sub").and_then(serde_json::Value::as_str).map(str::to_owned),
            role: data.claims.get("role").and_then(serde_json::Value::as_str).map(str::to_owned),
            exp: data.claims.get("exp").and_then(serde_json::Value::as_u64),
        }),
        Err(e) => Err(match e.kind() {
            jsonwebtoken::errors::ErrorKind::InvalidSignature => DecodeFailure::BadSignature,
            jsonwebtoken::errors::ErrorKind::InvalidAlgorithm => DecodeFailure::WrongAlgorithm,
            _ => DecodeFailure::Unreadable,
        }),
    }
}

/// Reads the system clock and has chrono count its seconds since the Unix
/// epoch, through `DateTime::<Utc>::from` and `timestamp`: a negative count
/// where the clock stands before the epoch. Nothing is known of the value.
#[verifier::external_body]
fn unix_now() -> i64 {
    chrono::DateTime::<chrono::Utc>::from(std::time::SystemTime::now()).timestamp()
}

/// What the clock shows: its second, or nothing before the epoch.
pub(crate) fn current_time() -> (clock: Option<u64>)
    ensures
        clock_reading(clock),
{
    clock_of(unix_now())
}

/// Whether `clock` is something the clock can show: a second that an `i64`
/// holds, or nothing, where the clock stands before the epoch.
pub open spec fn clock_reading(clock: Option<u64>) -> bool {
    clock matches Some(now) ==> now <= i64::MAX
}

/// What a count of seconds since the epoch shows: the second itself, or
/// nothing where the count is negative.
pub fn clock_of(seconds: i64) -> (clock: Option<u64>)
    ensures
        clock == if seconds < 0 {
            None
        } else {
            Some(seconds as u64)
        },
        clock_reading(clock),
{
    if seconds < 0 {
        None
    } else {
        Some(seconds as u64)
    }
}

/// How long a token is honoured after it was issued: 24 hours, in seconds.
pub const TOKEN_TTL_SECONDS: u64 = 86_400;

/// Issues and validates tokens under one signing key.
pub struct TokenService {
    key: Secret,
}

impl TokenService {
    /// The signing key.
    pub closed spec fn key(&self) -> Seq<char> {
        self.key@
    }

    /// A service that signs with `key`.
    pub fn new(key: Secret) -> (service: Self)
        ensures
            service.key() == key@,
    {
        TokenService { key }
    }

    /// What issuing at second `now` yields: the encoding of the claims with
    /// the expiry one lifetime after `now`, or an internal failure where the
    /// expiry cannot be represented.
    pub open spec fn spec_issue(&self, sub: Seq<char>, role: Seq<char>, now: u64) -> Result<
        Seq<char>,
        AuthError,
    > {
        if now + TOKEN_TTL_SECONDS > u64::MAX {
            Err(AuthError::Internal)
        } else {
            Ok(hs256_encoding(sub, role, (now + TOKEN_TTL_SECONDS) as u64, self.key()))
        }
    }

    /// What issuing yields for what the clock shows: a token for its
    /// second, and an internal failure before the epoch.
    pub open spec fn spec_issue_on(
        &self,
        sub: Seq<char>,
        role: Seq<char>,
        clock: Option<u64>,
    ) -> Result<Seq<char>, AuthError> {
        match clock {
            Some(now) => self.spec_issue(sub, role, now),
            None => Err(AuthError::Internal),
        }
    }

    /// The verdict on a decoded token at second `now`. A failed signature
    /// check comes first, whatever the token claims; then every claim must
    /// be present; then the expiry must not lie before `now`.
    pub open spec fn judge(decoded: Result<RawClaimsView, DecodeFailure>, now: u64) -> Result<
        ClaimsView,
        TokenError,
    > {
        match decoded {
            Err(DecodeFailure::BadSignature) => Err(TokenError::InvalidSignature),
            Err(DecodeFailure::WrongAlgorithm) => Err(TokenError::InvalidSignature),
            Err(DecodeFailure::Unreadable) => Err(TokenError::Malformed),
            Ok(raw) => match (raw.sub, raw.role, raw.exp) {
                (Some(sub), Some(role), Some(exp)) => if exp < now {
                    Err(TokenError::Expired)
                } else {
                    Ok(ClaimsView { sub, role, exp })
                },
                _ => Err(TokenError::Malformed),
            },
        }
    }

    /// What validating `token` at second `now` yields.
    pub open spec fn spec_validate(&self, token: Seq<char>, now: u64) -> Result<
        ClaimsView,
        TokenError,
    > {
        Self::judge(hs256_decoding(token, self.key()), now)
    }

    /// What validating `token` yields for what the clock shows. Before
    /// the epoch no token is admitted: one that would fail for its
    /// signature or its claims fails so, and any other cannot be judged.
    pub open spec fn spec_validate_on(&self, token: Seq<char>, clock: Option<u64>) -> Result<
        ClaimsView,
        TokenError,
    > {
        match clock {
            Some(now) => self.spec_validate(token, now),
            None => match self.spec_validate(token, 0) {
                Ok(_) => Err(TokenError::ClockBeforeEpoch),
                Err(e) => Err(e),
            },
        }
    }

    /// Whether `r` is what issuing at second `now` yields, and, where it is
    /// a token, whether that token is not empty and validates at `now` to
    /// the claims it was issued for.
    pub open spec fn issued_at(
        &self,
        sub: Seq<char>,
        role: Seq<char>,
        now: u64,
        r: Result<String, AuthError>,
    ) -> bool {
        match r {
            Ok(token) => {
                &&& self.spec_issue(sub, role, now) == Ok::<_, AuthError>(token@)
                &&& token@.len() > 0
                &&& self.spec_validate(token@, now) == Ok::<_, TokenError>(
                    ClaimsView { sub, role, exp: (now + TOKEN_TTL_SECONDS) as u64 },
                )
            },
            Err(e) => self.spec_issue(sub, role, now) == Err::<Seq<char>, _>(e),
        }
    }

    /// Whether `r` is what validating `token` at second `now` yields.
    pub open spec fn validated_at(
        &self,
        token: Seq<char>,
        now: u64,
        r: Result<Claims, TokenError>,
    ) -> bool {
        match r {
            Ok(claims) => self.spec_validate(token, now) == Ok::<_, TokenError>(claims@),
            Err(e) => self.spec_validate(token, now) == Err::<ClaimsView, _>(e),
        }
    }

    /// Whether `r` is what issuing yields for what the clock shows.
    pub open spec fn issued_on(
        &self,
        sub: Seq<char>,
        role: Seq<char>,
        clock: Option<u64>,
        r: Result<String, AuthError>,
    ) -> bool {
        match clock {
            Some(now) => self.issued_at(sub, role, now, r),
            None => r == Err::<String, _>(AuthError::Internal),
        }
    }

    /// Whether `r` is what validating `token` yields for what the clock
    /// shows.
    pub open spec fn validated_on(
        &self,
        token: Seq<char>,
        clock: Option<u64>,
        r: Result<Claims, TokenError>,
    ) -> bool {
        match r {
            Ok(claims) => self.spec_validate_on(token, clock) == Ok::<_, TokenError>(claims@),
            Err(e) => self.spec_validate_on(token, clock) == Err::<ClaimsView, _>(e),
        }
    }

    /// Issues a token for `username` in `role` at second `now`. The token
    /// carries the expiry one lifetime after `now`, and validates at `now` to
    /// the claims it was issued for.
    pub fn create_jwt_at(&self, username: &str, role: &str, now: u64) -> (r: Result<
        String,
        AuthError,
    >)
        ensures
            self.issued_at(username@, role@, now, r),
    {
        match now.checked_add(TOKEN_TTL_SECONDS) {
            None => Err(AuthError::Internal),
            Some(exp) => match hs256_encode(username, role, exp, self.key.expose()) {
                Ok(token) => Ok(token),
                Err(_) => Err(AuthError::Internal),
            },
        }
    }

    /// Issues a token for `username` in `role` for what the clock shows.
    pub fn create_jwt_on(&self, username: &str, role: &str, clock: Option<u64>) -> (r: Result<
        String,
        AuthError,
    >)
        ensures
            self.issued_on(username@, role@, clock, r),
    {
        match clock {
            Some(now) => self.create_jwt_at(username, role, now),
            None => Err(AuthError::Internal),
        }
    }

    /// Issues a token for `username` in `role` by the machine's clock.
    pub fn create_jwt(&self, username: &str, role: &str) -> (r: Result<String, AuthError>)
        ensures
            exists|clock: Option<u64>|
                clock_reading(clock) && self.issued_on(username@, role@, clock, r),
    {
        self.create_jwt_on(username, role, current_time())
    }

    /// Issues a token for a stored identity by the machine's clock.
    pub fn generate_jwt(&self, user: &User) -> (r: Result<String, AuthError>)
        ensures
            exists|clock: Option<u64>|
                clock_reading(clock) && self.issued_on(user@.username, user@.role, clock, r),
    {
        let clock = current_time();
        let r = self.create_jwt_on(user.username.as_str(), user.role.as_str(), clock);
        assert(self.issued_on(user@.username, user@.role, clock, r));
        r
    }

    /// The verdict on a decoded token at second `now`.
    pub fn claims_from(decoded: Result<RawClaims, DecodeFailure>, now: u64) -> (r: Result<
        Claims,
        TokenError,
    >)
        ensures
            match r {
                Ok(claims) => Self::judge(raw_view(decoded), now) == Ok::<_, TokenError>(claims@),
                Err(e) => Self::judge(raw_view(decoded), now) == Err::<ClaimsView, _>(e),
            },
    {
        match decoded {
            Err(DecodeFailure::BadSignature) => Err(TokenError::InvalidSignature),
            Err(DecodeFailure::WrongAlgorithm) => Err(TokenError::InvalidSignature),
            Err(DecodeFailure::Unreadable) => Err(TokenError::Malformed),
            Ok(raw) => match (raw.sub, raw.role, raw.exp) {
                (Some(sub), Some(role), Some(exp)) => {
                    if exp < now {
                        Err(TokenError::Expired)
                    } else {
                        Ok(Claims { sub, role, exp })
                    }
                },
                _ => Err(TokenError::Malformed),
            },
        }
    }

    /// Validates `token` at second `now`: the signature first, then the
    /// claims, then the expiry.
    pub fn verify_jwt_at(&self, token: &str, now: u64) -> (r: Result<Claims, TokenError>)
        ensures
            self.validated_at(token@, now, r),
    {
        Self::claims_from(hs256_decode(token, self.key.expose()), now)
    }

    /// Validates `token` for what the clock shows.
    pub fn verify_jwt_on(&self, token: &str, clock: Option<u64>) -> (r: Result<Claims, TokenError>)
        ensures
            self.validated_on(token@, clock, r),
    {
        match clock {
            Some(now) => self.verify_jwt_at(token, now),
            None => match self.verify_jwt_at(token, 0) {
                Ok(_) => Err(TokenError::ClockBeforeEpoch),
                Err(e) => Err(e),
            },
        }
    }

    /// Validates `token` by the machine's clock.
    pub fn verify_jwt(&self, token: &str) -> (r: Result<Claims, TokenError>)
        ensures
            exists|clock: Option<u64>| clock_reading(clock) && self.validated_on(token@, clock, r),
    {
        self.verify_jwt_on(token, current_time())
    }
}

/// A token that validates at some second keeps its claims at every second
/// up to its expiry, and is refused as expired at every second after it.
pub proof fn lemma_expiry_decides(service: TokenService, token: Seq<char>, now: u64, later: u64)
    requires
        service.spec_validate(token, now) is Ok,
    ensures
        service.spec_validate(token, now)->Ok_0.exp < later ==> service.spec_validate(token, later)
            == Err::<ClaimsView, _>(TokenError::Expired),
        service.spec_validate(token, now)->Ok_0.exp >= later ==> service.spec_validate(
            token,
            later,
        ) == service.spec_validate(token, now),
{
}

/// A token whose signature or algorithm is refused is refused for its
/// signature at every second, whatever expiry it claims.
pub proof fn lemma_signature_comes_first(service: TokenService, token: Seq<char>, now: u64)
    requires
        hs256_decoding(token, service.key()) is Err,
        hs256_decoding(token, service.key())->Err_0 != DecodeFailure::Unreadable,
    ensures
        service.spec_validate(token, now) == Err::<ClaimsView, _>(TokenError::InvalidSignature),
{
}

/// The view of a decoding outcome.
pub open spec fn raw_view(decoded: Result<RawClaims, DecodeFailure>) -> Result<
    RawClaimsView,
    DecodeFailure,
> {
    match decoded {
        Ok(raw) => Ok(raw@),
        Err(e) => Err(e),
    }
}

} // verus!
