//! Plain records exchanged with clients and with the credential store.
//!
//! Every record that a contract speaks of has a view: the same record with
//! its strings taken as sequences of characters.

use vstd::prelude::*;
use crate::text::{blank, is_blank};

verus! {

/// A bug report as the store holds it.
#[derive(Debug, Clone, PartialEq, Eq)]
pub struct Bug {
    pub id: Option<i64>,
    pub title: String,
    pub description: Option<String>,
    pub reported_by: Option<String>,
    pub severity: Option<String>,
    pub developer_id: Option<i64>,
}

/// A bug report as a client submits it.
#[derive(Debug, Clone, PartialEq, Eq)]
pub struct NewBug {
    pub title: String,
    pub description: String,
    pub reported_by: String,
    pub severity: String,
}

impl Bug {
    /// Tells whether the report has a title, which every report needs.
    pub fn has_title(&self) -> (r: bool)
        ensures
            r == !blank(self.title@),
    {
        !is_blank(self.title.as_str())
    }
}

impl NewBug {
    /// Tells whether the report has a title, which every report needs.
    pub fn has_title(&self) -> (r: bool)
        ensures
            r == !blank(self.title@),
    {
        !is_blank(self.title.as_str())
    }
}

/// A developer bugs can be assigned to.
#[derive(Debug, Clone, PartialEq, Eq)]
pub struct Developer {
    pub id: i64,
    pub name: String,
}

/// A developer as a client submits one.
#[derive(Debug, Clone, PartialEq, Eq)]
pub struct NewDeveloper {
    pub name: String,
}

impl NewDeveloper {
    /// Tells whether the developer has a name, which every developer needs.
    pub fn has_name(&self) -> (r: bool)
        ensures
            r == !blank(self.name@),
    {
        !is_blank(self.name.as_str())
    }
}

/// A project bugs are filed under.
#[derive(Debug, PartialEq, Eq)]
pub struct Project {
    pub id: i64,
    pub name: String,
    pub description: String,
    pub active: bool,
}

impl Clone for Project {
    fn clone(&self) -> (r: Self)
        ensures
            r == *self,
    {
        Project {
            id: self.id,
            name: self.name.clone(),
            description: self.description.clone(),
            active: self.active,
        }
    }
}

/// A project with its strings as character sequences.
pub ghost struct ProjectView {
    pub id: i64,
    pub name: Seq<char>,
    pub description: Seq<char>,
    pub active: bool,
}

impl View for Project {
    type V = ProjectView;

    open spec fn view(&self) -> ProjectView {
        ProjectView {
            id: self.id,
            name: self.name@,
            description: self.description@,
            active: self.active,
        }
    }
}

/// A project as a client submits one.
#[derive(Debug, Clone, PartialEq, Eq)]
pub struct NewProject {
    pub name: String,
    pub description: String,
}

impl NewProject {
    /// Tells whether the project has a name, which every project needs.
    pub fn has_name(&self) -> (r: bool)
        ensures
            r == !blank(self.name@),
    {
        !is_blank(self.name.as_str())
    }
}

/// The body of a login request. It lives for one request and is never stored.
#[derive(Clone, PartialEq, Eq)]
pub struct LoginRequest {
    pub username: String,
    pub password: String,
}

/// The body of the answer to a login request.
#[derive(Debug, Clone, PartialEq, Eq)]
pub struct LoginResponse {
    pub status: String,
    pub token: Option<String>,
    pub message: String,
}

/// A login answer with its strings as character sequences.
pub ghost struct LoginResponseView {
    pub status: Seq<char>,
    pub token: Option<Seq<char>>,
    pub message: Seq<char>,
}

impl View for LoginResponse {
    type V = LoginResponseView;

    open spec fn view(&self) -> LoginResponseView {
        LoginResponseView {
            status: self.status@,
            token: match self.token {
                Some(t) => Some(t@),
                None => None,
            },
            message: self.message@,
        }
    }
}

/// The form that assigns a bug to a developer.
#[derive(Debug, Clone, PartialEq, Eq)]
pub struct BugAssignment {
    pub bug_id: i64,
    pub developer_id: i64,
}

/// The uniform envelope of a JSON answer.
#[derive(Debug, Clone, PartialEq, Eq)]
pub struct ApiResponse<T> {
    pub success: bool,
    pub message: String,
    pub data: Option<T>,
    pub bug_id: Option<i64>,
}

impl<T> ApiResponse<T> {
    /// A success that carries `data`.
    pub fn success(data: T, message: &str) -> (r: Self)
        ensures
            r.success,
            r.message@ == message@,
            r.data == Some(data),
            r.bug_id.is_none(),
    {
        ApiResponse { success: true, message: message.to_owned(), data: Some(data), bug_id: None }
    }

    /// A success that carries `data` and names the bug it is about.
    pub fn success_with_id(data: T, message: &str, bug_id: i64) -> (r: Self)
        ensures
            r.success,
            r.message@ == message@,
            r.data == Some(data),
            r.bug_id == Some(bug_id),
    {
        ApiResponse {
            success: true,
            message: message.to_owned(),
            data: Some(data),
            bug_id: Some(bug_id),
        }
    }

    /// A failure: no data, no bug, only the message.
    pub fn error(message: &str) -> (r: Self)
        ensures
            !r.success,
            r.message@ == message@,
            r.data.is_none(),
            r.bug_id.is_none(),
    {
        ApiResponse { success: false, message: message.to_owned(), data: None, bug_id: None }
    }
}

/// A stored identity. Of the password it holds a digest only.
#[derive(Debug, PartialEq, Eq)]
pub struct User {
    pub id: i64,
    pub username: String,
    pub password_hash: String,
    pub role: String,
}

/// An identity with its strings as character sequences.
pub ghost struct UserView {
    pub id: i64,
    pub username: Seq<char>,
    pub password_hash: Seq<char>,
    pub role: Seq<char>,
}

impl View for User {
    type V = UserView;

    open spec fn view(&self) -> UserView {
        UserView {
            id: self.id,
            username: self.username@,
            password_hash: self.password_hash@,
            role: self.role@,
        }
    }
}

impl Clone for User {
    fn clone(&self) -> (r: Self)
        ensures
            r == *self,
    {
        User {
            id: self.id,
            username: self.username.clone(),
            password_hash: self.password_hash.clone(),
            role: self.role.clone(),
        }
    }
}

/// What a token carries: who it was issued to, in which role, and the
/// second (since the epoch) after which it is no longer honoured.
#[derive(Debug, PartialEq, Eq)]
pub struct Claims {
    pub sub: String,
    pub role: String,
    pub exp: u64,
}

/// Claims with their strings as character sequences.
pub ghost struct ClaimsView {
    pub sub: Seq<char>,
    pub role: Seq<char>,
    pub exp: u64,
}

impl View for Claims {
    type V = ClaimsView;

    open spec fn view(&self) -> ClaimsView {
        ClaimsView { sub: self.sub@, role: self.role@, exp: self.exp }
    }
}

impl Clone for Claims {
    fn clone(&self) -> (r: Self)
        ensures
            r == *self,
    {
        Claims { sub: self.sub.clone(), role: self.role.clone(), exp: self.exp }
    }
}

} // verus!
