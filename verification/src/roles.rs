//! The closed set of roles an identity can have.

use vstd::prelude::*;
use crate::text::same_text;

verus! {

/// The role of an administrator.
pub open spec fn admin_role() -> Seq<char> {
    "admin"@
}

/// The role of a developer: the one an identity gets when none is asked for.
pub open spec fn developer_role() -> Seq<char> {
    "developer"@
}

/// Whether `role` is one of the roles the service knows.
pub open spec fn known_role(role: Seq<char>) -> bool {
    role == admin_role() || role == developer_role()
}

/// The role an identity gets for the role that was asked for.
pub open spec fn role_or_default(asked: Option<Seq<char>>) -> Seq<char> {
    match asked {
        Some(role) => role,
        None => developer_role(),
    }
}

/// Tells whether `role` is one of the roles the service knows.
pub fn is_known_role(role: &str) -> (r: bool)
    ensures
        r == known_role(role@),
{
    same_text(role, admin()) || same_text(role, default_role())
}

/// The role of an administrator.
pub fn admin() -> (role: &'static str)
    ensures
        role@ == admin_role(),
{
    "admin"
}

/// The role an identity gets when none is asked for.
pub fn default_role() -> (role: &'static str)
    ensures
        role@ == developer_role(),
{
    "developer"
}

} // verus!
