//! What the endpoints answer: the decisions of the login, registration and
//! protected handlers, from plain values to a status and a body.
//!
//! A handler that waits for a persistent store runs in two steps: it asks
//! `login_begin` whether to look the user up at all, looks it up, and hands
//! the answer of the store to `login_conclude`.
//!
//! What depends on the time comes in three forms: at a given second, for
//! what a clock shows (a second, or nothing before the epoch), and by the
//! machine's clock.

use vstd::prelude::*;
use crate::access::{require_role, with_role, Admission, AdmissionView};
use crate::auth::AuthenticationService;
use crate::errors::AuthError;
use crate::models::{
    LoginRequest, LoginResponse, LoginResponseView, NewProject, Project, ProjectView, User,
    UserView,
};
use crate::projects::ProjectRegistry;
use crate::roles::{admin, admin_role};
use crate::store::{find_user, option_user, CredentialStore, StoreError};
use crate::text::{blank, is_blank};
use crate::token::{clock_reading, current_time, TokenService, TOKEN_TTL_SECONDS};

verus! {

/// An answer to a client: the HTTP status and the JSON body.
#[derive(Debug, PartialEq, Eq)]
pub struct HttpReply {
    pub status: u16,
    pub body: LoginResponse,
}

/// An answer with the strings of its body as character sequences.
pub ghost struct HttpReplyView {
    pub status: u16,
    pub body: LoginResponseView,
}

impl View for HttpReply {
    type V = HttpReplyView;

    open spec fn view(&self) -> HttpReplyView {
        HttpReplyView { status: self.status, body: self.body@ }
    }
}

/// The answer to a request that failed with `err`: the status of the
/// failure, and a body that holds its fixed message and nothing else.
pub open spec fn failure_reply(err: AuthError) -> HttpReplyView {
    HttpReplyView {
        status: err.spec_status_code(),
        body: LoginResponseView { status: "failure"@, token: None, message: err.spec_message() },
    }
}

/// The answer to a login that succeeded with `token`.
pub open spec fn login_success_reply(token: Seq<char>) -> HttpReplyView {
    HttpReplyView {
        status: 200,
        body: LoginResponseView {
            status: "success"@,
            token: Some(token),
            message: "Login successful"@,
        },
    }
}

/// The answer to a registration that succeeded.
pub open spec fn registration_success_reply() -> HttpReplyView {
    HttpReplyView {
        status: 200,
        body: LoginResponseView {
            status: "success"@,
            token: None,
            message: "Registration successful"@,
        },
    }
}

/// The answer to a request that failed with `err`. The body depends on the
/// kind of failure alone: no text of a store or of a library reaches it.
pub fn error_response(err: AuthError) -> (reply: HttpReply)
    ensures
        reply@ == failure_reply(err),
{
    HttpReply {
        status: err.status_code(),
        body: LoginResponse {
            status: "failure".to_owned(),
            token: None,
            message: err.message().to_owned(),
        },
    }
}

/// The view of what a store answers to a lookup.
pub open spec fn lookup_view(lookup: Result<Option<User>, StoreError>) -> Result<
    Option<UserView>,
    StoreError,
> {
    match lookup {
        Ok(found) => Ok(option_user(found)),
        Err(e) => Err(e),
    }
}

/// Whether a login request names a username and a password.
pub open spec fn login_fields_present(username: Seq<char>, password: Seq<char>) -> bool {
    !blank(username) && !blank(password)
}

/// The answer to a login request, given what the store answered to the
/// lookup of its username and what the clock shows.
///
/// A request with a blank field is a validation failure. A store that
/// cannot answer is reported as unavailable. An unknown username and a
/// wrong password get one and the same answer. Anyone else gets a token,
/// unless its expiry cannot be told: that is an internal failure.
pub open spec fn login_reply_on(
    auth: AuthenticationService,
    tokens: TokenService,
    username: Seq<char>,
    password: Seq<char>,
    lookup: Result<Option<UserView>, StoreError>,
    clock: Option<u64>,
) -> HttpReplyView {
    if !login_fields_present(username, password) {
        failure_reply(AuthError::Validation)
    } else {
        match lookup {
            Err(_) => failure_reply(AuthError::StoreUnavailable),
            Ok(found) => match auth.spec_authenticate(found, password) {
                None => failure_reply(AuthError::Unauthorized),
                Some(user) => match tokens.spec_issue_on(user.username, user.role, clock) {
                    Ok(token) => login_success_reply(token),
                    Err(e) => failure_reply(e),
                },
            },
        }
    }
}

/// The answer to a login request, given what the store answered to the
/// lookup of its username, at second `now`.
pub open spec fn login_reply(
    auth: AuthenticationService,
    tokens: TokenService,
    username: Seq<char>,
    password: Seq<char>,
    lookup: Result<Option<UserView>, StoreError>,
    now: u64,
) -> HttpReplyView {
    login_reply_on(auth, tokens, username, password, lookup, Some(now))
}

/// A login with an unknown username and a login with a wrong password get
/// the same answer, status and body: nothing in it tells a client which
/// of the two it was, nor does what the clock showed at either request.
pub proof fn lemma_failed_logins_indistinguishable(
    auth: AuthenticationService,
    tokens: TokenService,
    users: Seq<UserView>,
    unknown: Seq<char>,
    known: Seq<char>,
    any_password: Seq<char>,
    wrong_password: Seq<char>,
    clock: Option<u64>,
    later: Option<u64>,
)
    requires
        login_fields_present(unknown, any_password),
        login_fields_present(known, wrong_password),
        find_user(users, unknown) is None,
        find_user(users, known) matches Some(user) && !auth.hasher().spec_verify(
            wrong_password,
            user.password_hash,
        ),
    ensures
        login_reply_on(auth, tokens, unknown, any_password, Ok(find_user(users, unknown)), clock)
            == login_reply_on(
            auth,
            tokens,
            known,
            wrong_password,
            Ok(find_user(users, known)),
            later,
        ),
        login_reply_on(auth, tokens, unknown, any_password, Ok(find_user(users, unknown)), clock)
            == failure_reply(AuthError::Unauthorized),
{
}

/// Whoever names an identity and its password gets a token whenever the
/// expiry can be told: the answer is a success with the token issued for
/// the identity's name and role.
pub proof fn lemma_valid_login_succeeds(
    auth: AuthenticationService,
    tokens: TokenService,
    users: Seq<UserView>,
    username: Seq<char>,
    password: Seq<char>,
    now: u64,
)
    requires
        login_fields_present(username, password),
        find_user(users, username) matches Some(user) && auth.hasher().spec_verify(
            password,
            user.password_hash,
        ),
        now + TOKEN_TTL_SECONDS <= u64::MAX,
    ensures
        ({
            let found = find_user(users, username);
            let reply = login_reply(auth, tokens, username, password, Ok(found), now);
            &&& reply.status == 200
            &&& reply.body.token == Some(
                tokens.spec_issue(found->0.username, found->0.role, now)->Ok_0,
            )
        }),
{
}

/// The first step of a login: the answer to a request that needs no
/// lookup, or nothing where the username is to be looked up.
pub fn login_begin(request: &LoginRequest) -> (early: Option<HttpReply>)
    ensures
        match early {
            Some(reply) => !login_fields_present(request.username@, request.password@) && reply@
                == failure_reply(AuthError::Validation),
            None => login_fields_present(request.username@, request.password@),
        },
{
    if is_blank(request.username.as_str()) || is_blank(request.password.as_str()) {
        Some(error_response(AuthError::Validation))
    } else {
        None
    }
}

/// The answer to a login for the outcome of issuing its token.
pub fn token_reply(issued: Result<String, AuthError>) -> (reply: HttpReply)
    ensures
        match issued {
            Ok(token) => reply@ == login_success_reply(token@),
            Err(e) => reply@ == failure_reply(e),
        },
{
    match issued {
        Ok(token) => HttpReply {
            status: 200,
            body: LoginResponse {
                status: "success".to_owned(),
                token: Some(token),
                message: "Login successful".to_owned(),
            },
        },
        Err(e) => error_response(e),
    }
}

/// The last step of a login for what the clock shows: the answer, given
/// what the store answered to the lookup of the username.
pub fn login_conclude_on(
    auth: &AuthenticationService,
    tokens: &TokenService,
    request: &LoginRequest,
    lookup: Result<Option<User>, StoreError>,
    clock: Option<u64>,
) -> (reply: HttpReply)
    ensures
        reply@ == login_reply_on(
            *auth,
            *tokens,
            request.username@,
            request.password@,
            lookup_view(lookup),
            clock,
        ),
{
    match login_begin(request) {
        Some(reply) => reply,
        None => match lookup {
            Err(_) => error_response(AuthError::StoreUnavailable),
            Ok(found) => match auth.verify_found(found, request.password.as_str()) {
                None => error_response(AuthError::Unauthorized),
                Some(user) => token_reply(
                    tokens.create_jwt_on(user.username.as_str(), user.role.as_str(), clock),
                ),
            },
        },
    }
}

/// The last step of a login at second `now`: the answer, given what the
/// store answered to the lookup of the username.
pub fn login_conclude_at(
    auth: &AuthenticationService,
    tokens: &TokenService,
    request: &LoginRequest,
    lookup: Result<Option<User>, StoreError>,
    now: u64,
) -> (reply: HttpReply)
    ensures
        reply@ == login_reply(
            *auth,
            *tokens,
            request.username@,
            request.password@,
            lookup_view(lookup),
            now,
        ),
{
    login_conclude_on(auth, tokens, request, lookup, Some(now))
}

/// The last step of a login by the machine's clock.
pub fn login_conclude(
    auth: &AuthenticationService,
    tokens: &TokenService,
    request: &LoginRequest,
    lookup: Result<Option<User>, StoreError>,
) -> (reply: HttpReply)
    ensures
        exists|clock: Option<u64>|
            clock_reading(clock) && reply@ == #[trigger] login_reply_on(
                *auth,
                *tokens,
                request.username@,
                request.password@,
                lookup_view(lookup),
                clock,
            ),
{
    login_conclude_on(auth, tokens, request, lookup, current_time())
}

/// Answers a login request against `store` for what the clock shows.
pub fn login_on(
    auth: &AuthenticationService,
    tokens: &TokenService,
    store: &CredentialStore,
    request: &LoginRequest,
    clock: Option<u64>,
) -> (reply: HttpReply)
    ensures
        reply@ == login_reply_on(
            *auth,
            *tokens,
            request.username@,
            request.password@,
            Ok(find_user(store@, request.username@)),
            clock,
        ),
{
    let found = store.get_user_by_username(request.username.as_str());
    login_conclude_on(auth, tokens, request, Ok(found), clock)
}

/// Answers a login request against `store` at second `now`.
pub fn login_at(
    auth: &AuthenticationService,
    tokens: &TokenService,
    store: &CredentialStore,
    request: &LoginRequest,
    now: u64,
) -> (reply: HttpReply)
    ensures
        reply@ == login_reply(
            *auth,
            *tokens,
            request.username@,
            request.password@,
            Ok(find_user(store@, request.username@)),
            now,
        ),
{
    login_on(auth, tokens, store, request, Some(now))
}

/// Answers a login request against `store` by the machine's clock.
pub fn login(
    auth: &AuthenticationService,
    tokens: &TokenService,
    store: &CredentialStore,
    request: &LoginRequest,
) -> (reply: HttpReply)
    ensures
        exists|clock: Option<u64>|
            clock_reading(clock) && reply@ == #[trigger] login_reply_on(
                *auth,
                *tokens,
                request.username@,
                request.password@,
                Ok(find_user(store@, request.username@)),
                clock,
            ),
{
    login_on(auth, tokens, store, request, current_time())
}

/// The answer to a registration for its outcome.
pub fn register_reply(outcome: Result<User, AuthError>) -> (reply: HttpReply)
    ensures
        match outcome {
            Ok(_) => reply@ == registration_success_reply(),
            Err(e) => reply@ == failure_reply(e),
        },
{
    match outcome {
        Ok(_) => HttpReply {
            status: 200,
            body: LoginResponse {
                status: "success".to_owned(),
                token: None,
                message: "Registration successful".to_owned(),
            },
        },
        Err(e) => error_response(e),
    }
}

/// What a protected route answers once the guard has decided.
#[derive(Debug, PartialEq, Eq)]
pub struct ProtectedReply {
    pub status: u16,
    pub message: String,
    pub user: Option<String>,
    pub role: Option<String>,
    pub expires: Option<u64>,
}

/// A protected answer with its strings as character sequences.
pub ghost struct ProtectedReplyView {
    pub status: u16,
    pub message: Seq<char>,
    pub user: Option<Seq<char>>,
    pub role: Option<Seq<char>>,
    pub expires: Option<u64>,
}

impl View for ProtectedReply {
    type V = ProtectedReplyView;

    open spec fn view(&self) -> ProtectedReplyView {
        ProtectedReplyView {
            status: self.status,
            message: self.message@,
            user: match self.user {
                Some(s) => Some(s@),
                None => None,
            },
            role: match self.role {
                Some(s) => Some(s@),
                None => None,
            },
            expires: self.expires,
        }
    }
}

/// The answer of a protected route: the claims of an admitted request, or
/// the reason of a rejection with the status of an unauthorized request.
pub open spec fn protected_reply(admission: AdmissionView) -> ProtectedReplyView {
    match admission {
        AdmissionView::Admitted(claims) => ProtectedReplyView {
            status: 200,
            message: "Access granted!"@,
            user: Some(claims.sub),
            role: Some(claims.role),
            expires: Some(claims.exp),
        },
        AdmissionView::Rejected(reason) => ProtectedReplyView {
            status: AuthError::Unauthorized.spec_status_code(),
            message: reason.spec_message(),
            user: None,
            role: None,
            expires: None,
        },
    }
}

/// Answers a request to a protected route once the guard has decided.
pub fn protected_endpoint(admission: Admission) -> (reply: ProtectedReply)
    ensures
        reply@ == protected_reply(admission@),
{
    match admission {
        Admission::Admitted(claims) => ProtectedReply {
            status: 200,
            message: "Access granted!".to_owned(),
            user: Some(claims.sub),
            role: Some(claims.role),
            expires: Some(claims.exp),
        },
        Admission::Rejected(reason) => ProtectedReply {
            status: AuthError::Unauthorized.status_code(),
            message: reason.message().to_owned(),
            user: None,
            role: None,
            expires: None,
        },
    }
}

/// Adds a project on behalf of a request the guard has decided on. Only an
/// administrator may add one: a request that is rejected, or admitted in
/// another role, leaves the registry as it was.
pub fn add_project(registry: &mut ProjectRegistry, admission: Admission, new: &NewProject) -> (r:
    Result<Project, AuthError>)
    ensures
        match with_role(admission@, admin_role()) {
            AdmissionView::Rejected(_) => {
                &&& r == Err::<Project, _>(AuthError::Unauthorized)
                &&& final(registry)@ == old(registry)@
            },
            AdmissionView::Admitted(_) => match r {
                Ok(project) => {
                    &&& ProjectRegistry::spec_add(old(registry)@, new.name@, new.description@)
                        == Ok::<_, AuthError>(project@)
                    &&& final(registry)@ == old(registry)@.push(project@)
                },
                Err(e) => {
                    &&& ProjectRegistry::spec_add(old(registry)@, new.name@, new.description@)
                        == Err::<ProjectView, _>(e)
                    &&& final(registry)@ == old(registry)@
                },
            },
        },
{
    match require_role(admission, admin()) {
        Admission::Rejected(_) => Err(AuthError::Unauthorized),
        Admission::Admitted(_) => registry.add_project(new),
    }
}

} // verus!
