//! The guard before protected routes: it takes the bearer token from the
//! authorization header, has it validated, and admits the request with the
//! claims of the token or rejects it before any handler runs.

use vstd::prelude::*;
use crate::errors::TokenError;
use crate::models::{Claims, ClaimsView};
use crate::text::{option_str, same_text};
use crate::token::{clock_reading, current_time, TokenService};

verus! {

/// Why a request was rejected. Every rejection is answered as unauthorized.
#[derive(Debug, Clone, Copy, PartialEq, Eq, Structural)]
pub enum RejectReason {
    /// No authorization header, or one that is not of the bearer scheme.
    MissingCredential,
    /// The token was refused.
    Token(TokenError),
    /// The identity lacks the role the route asks for.
    InsufficientRole,
}

impl RejectReason {
    /// The reason a client reads.
    pub open spec fn spec_message(self) -> Seq<char> {
        match self {
            RejectReason::MissingCredential => "missing or malformed credential"@,
            RejectReason::Token(e) => e.spec_reason(),
            RejectReason::InsufficientRole => "insufficient role"@,
        }
    }

    /// The reason a client reads.
    pub fn message(&self) -> (text: &'static str)
        ensures
            text@ == self.spec_message(),
    {
        match self {
            RejectReason::MissingCredential => "missing or malformed credential",
            RejectReason::Token(e) => e.reason(),
            RejectReason::InsufficientRole => "insufficient role",
        }
    }
}

/// How the guard decided on a request.
#[derive(Debug, PartialEq, Eq)]
pub enum Admission {
    /// The request goes on, with the claims of its token attached.
    Admitted(Claims),
    /// The request ends here.
    Rejected(RejectReason),
}

/// A decision with the strings of its claims as character sequences.
pub ghost enum AdmissionView {
    Admitted(ClaimsView),
    Rejected(RejectReason),
}

impl View for Admission {
    type V = AdmissionView;

    open spec fn view(&self) -> AdmissionView {
        match self {
            Admission::Admitted(claims) => AdmissionView::Admitted(claims@),
            Admission::Rejected(reason) => AdmissionView::Rejected(*reason),
        }
    }
}

/// The scheme a credential must open with, up to and with the space.
pub open spec fn bearer_prefix() -> Seq<char> {
    "Bearer "@
}

/// The token an authorization header presents: what follows the bearer
/// scheme. A missing header or another scheme presents none.
pub open spec fn bearer_of(header: Option<Seq<char>>) -> Option<Seq<char>> {
    match header {
        Some(h) => if bearer_prefix().is_prefix_of(h) {
            Some(h.skip(bearer_prefix().len() as int))
        } else {
            None
        },
        None => None,
    }
}

/// Takes the bearer token from an authorization header.
pub fn bearer_token<'a>(header: Option<&'a str>) -> (token: Option<&'a str>)
    ensures
        option_str(token) == bearer_of(option_str(header)),
{
    proof {
        reveal_strlit("Bearer ");
    }
    match header {
        None => None,
        Some(h) => {
            let n = h.unicode_len();
            if n < 7 {
                return None;
            }
            let scheme = h.substring_char(0, 7);
            if same_text(scheme, "Bearer ") {
                let token = h.substring_char(7, n);
                assert(h@.skip(7) == h@.subrange(7, n as int));
                Some(token)
            } else {
                None
            }
        },
    }
}

/// What the guard decides for the verdict on a token.
pub open spec fn admission_of(validated: Result<ClaimsView, TokenError>) -> AdmissionView {
    match validated {
        Ok(claims) => AdmissionView::Admitted(claims),
        Err(e) => AdmissionView::Rejected(RejectReason::Token(e)),
    }
}

/// What a role guard makes of a decision: an admitted request goes on only
/// in the role that is asked for; a rejection stays as it is.
pub open spec fn with_role(admission: AdmissionView, role: Seq<char>) -> AdmissionView {
    match admission {
        AdmissionView::Admitted(claims) => if claims.role == role {
            admission
        } else {
            AdmissionView::Rejected(RejectReason::InsufficientRole)
        },
        AdmissionView::Rejected(_) => admission,
    }
}

/// The role guard: to be laid over the decision of the access guard on
/// routes that are open to one role only.
pub fn require_role(admission: Admission, role: &str) -> (r: Admission)
    ensures
        r@ == with_role(admission@, role@),
{
    match admission {
        Admission::Admitted(claims) => {
            if same_text(claims.role.as_str(), role) {
                Admission::Admitted(claims)
            } else {
                Admission::Rejected(RejectReason::InsufficientRole)
            }
        },
        Admission::Rejected(reason) => Admission::Rejected(reason),
    }
}

/// Guards protected routes with one token service.
pub struct AccessGate {
    tokens: TokenService,
}

impl AccessGate {
    /// The service that validates the tokens.
    pub closed spec fn tokens(&self) -> TokenService {
        self.tokens
    }

    /// A guard that validates tokens with `tokens`.
    pub fn new(tokens: TokenService) -> (guard: Self)
        ensures
            guard.tokens() == tokens,
    {
        AccessGate { tokens }
    }

    /// The decision on a request with the given authorization header at
    /// second `now`.
    pub open spec fn spec_admit(&self, header: Option<Seq<char>>, now: u64) -> AdmissionView {
        match bearer_of(header) {
            None => AdmissionView::Rejected(RejectReason::MissingCredential),
            Some(token) => admission_of(self.tokens().spec_validate(token, now)),
        }
    }

    /// What the guard decides for the verdict on a token.
    pub fn admission_from(validated: Result<Claims, TokenError>) -> (r: Admission)
        ensures
            r@ == admission_of(
                match validated {
                    Ok(claims) => Ok(claims@),
                    Err(e) => Err(e),
                },
            ),
    {
        match validated {
            Ok(claims) => Admission::Admitted(claims),
            Err(e) => Admission::Rejected(RejectReason::Token(e)),
        }
    }

    /// Decides on a request with the given authorization header at second
    /// `now`.
    pub fn auth_validator_at(&self, header: Option<&str>, now: u64) -> (r: Admission)
        ensures
            r@ == self.spec_admit(option_str(header), now),
    {
        match bearer_token(header) {
            None => Admission::Rejected(RejectReason::MissingCredential),
            Some(token) => Self::admission_from(self.tokens.verify_jwt_at(token, now)),
        }
    }

    /// The decision on a request with the given authorization header for
    /// what the clock shows.
    pub open spec fn spec_admit_on(
        &self,
        header: Option<Seq<char>>,
        clock: Option<u64>,
    ) -> AdmissionView {
        match bearer_of(header) {
            None => AdmissionView::Rejected(RejectReason::MissingCredential),
            Some(token) => admission_of(self.tokens().spec_validate_on(token, clock)),
        }
    }

    /// Decides on a request with the given authorization header for what
    /// the clock shows. Before the epoch no request is admitted.
    pub fn auth_validator_on(&self, header: Option<&str>, clock: Option<u64>) -> (r: Admission)
        ensures
            r@ == self.spec_admit_on(option_str(header), clock),
    {
        match bearer_token(header) {
            None => Admission::Rejected(RejectReason::MissingCredential),
            Some(token) => Self::admission_from(self.tokens.verify_jwt_on(token, clock)),
        }
    }

    /// Decides on a request with the given authorization header by the
    /// machine's clock.
    pub fn auth_validator(&self, header: Option<&str>) -> (r: Admission)
        ensures
            exists|clock: Option<u64>|
                clock_reading(clock) && r@ == #[trigger] self.spec_admit_on(
                    option_str(header),
                    clock,
                ),
    {
        self.auth_validator_on(header, current_time())
    }
}

} // verus!
