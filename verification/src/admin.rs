//! What administrators do to accounts: list them, change the role of one, and
//! make the first superadmin.

use crate::auth::roles::Role;
use crate::auth::{AuthToken, AuthTokenView};
use crate::models::{outcome_view, User, UserView};
use crate::text::str_eq;
use vstd::prelude::*;

verus! {

/// Why an administrative operation was refused.
#[derive(Clone, Copy, Debug, PartialEq, Eq, Structural)]
pub enum AdminError {
    /// The caller's token was issued for another role than `Superadmin`.
    Forbidden,
    /// The role to assign is not the name of a role.
    UnknownRole,
    /// The password is not the shared secret.
    WrongSecret,
}

/// Whether an account can be given the role named `role`: it is the name of
/// one of the roles.
pub open spec fn assignable(role: Seq<char>) -> bool {
    exists|r: Role| r.spec_name() == role
}

/// Whether a change of role to `new_role` may be made.
pub open spec fn change_role_outcome(new_role: Seq<char>, usr: AuthTokenView) -> Result<
    (),
    AdminError,
> {
    if usr.required != Role::Superadmin {
        Err(AdminError::Forbidden)
    } else if !assignable(new_role) {
        Err(AdminError::UnknownRole)
    } else {
        Ok(())
    }
}

/// Decides whether an account may be given the role named `new_role`. The
/// caller's token must have been issued for `Role::Superadmin`, and the name
/// must be that of a role. Where the answer is `Ok`, the stored account is
/// then changed with `with_role`, in one step of the store.
pub fn change_role(new_role: &str, usr: &AuthToken) -> (outcome: Result<(), AdminError>)
    ensures
        outcome == change_role_outcome(new_role@, usr@),
{
    if !matches!(usr.required, Role::Superadmin) {
        return Err(AdminError::Forbidden);
    }
    match Role::from_name(new_role) {
        Some(role) => {
            assert(role.spec_name() == new_role@);
            Ok(())
        },
        None => Err(AdminError::UnknownRole),
    }
}

/// What becomes of a stored account when its role is changed: the role is
/// replaced and the rest kept; where nothing is stored, nothing is.
pub open spec fn spec_with_role(stored: Option<UserView>, new_role: Seq<char>) -> Option<
    UserView,
> {
    match stored {
        Some(u) => Some(UserView { role: new_role, ..u }),
        None => None,
    }
}

/// Gives a stored account the role named `new_role` and keeps its name and
/// email address. Where nothing is stored, nothing is.
pub fn with_role(stored: Option<User>, new_role: &str) -> (next: Option<User>)
    ensures
        next.deep_view() == spec_with_role(stored.deep_view(), new_role@),
{
    match stored {
        Some(mut u) => {
            u.role = new_role.to_owned();
            Some(u)
        },
        None => None,
    }
}

/// The account of a superadmin with the given email address.
pub open spec fn superadmin(email: Seq<char>) -> UserView {
    UserView { name: "Superadmin"@, email, role: Role::Superadmin.spec_name() }
}

/// What making a superadmin comes to: the account to store under its email
/// address, or the refusal.
pub open spec fn generate_superadmin_outcome(
    email: Seq<char>,
    password: Seq<char>,
    secret: Seq<char>,
) -> Result<UserView, AdminError> {
    if password == secret {
        Ok(superadmin(email))
    } else {
        Err(AdminError::WrongSecret)
    }
}

/// Makes the account of a superadmin, to be stored under its email address,
/// where `password` is the shared secret, character for character.
pub fn generate_superadmin(email: String, password: &str, secret: &str) -> (outcome: Result<
    User,
    AdminError,
>)
    ensures
        outcome_view(outcome) == generate_superadmin_outcome(email@, password@, secret@),
{
    if !str_eq(password, secret) {
        return Err(AdminError::WrongSecret);
    }
    Ok(User { email, name: "Superadmin".to_owned(), role: Role::Superadmin.name().to_owned() })
}

/// What listing the accounts comes to.
pub open spec fn users_outcome(
    entries: Seq<(Seq<char>, UserView)>,
    usr: AuthTokenView,
) -> Result<Seq<(Seq<char>, UserView)>, AdminError> {
    if usr.required != Role::Superadmin {
        Err(AdminError::Forbidden)
    } else {
        Ok(entries)
    }
}

/// Hands out all stored accounts to a caller whose token was issued for
/// `Role::Superadmin`.
pub fn users(entries: Vec<(String, User)>, usr: &AuthToken) -> (outcome: Result<
    Vec<(String, User)>,
    AdminError,
>)
    ensures
        match outcome {
            Ok(all) => users_outcome(entries.deep_view(), usr@) == Ok::<
                Seq<(Seq<char>, UserView)>,
                AdminError,
            >(all.deep_view()),
            Err(reason) => users_outcome(entries.deep_view(), usr@) == Err::<
                Seq<(Seq<char>, UserView)>,
                AdminError,
            >(reason),
        },
{
    if !matches!(usr.required, Role::Superadmin) {
        return Err(AdminError::Forbidden);
    }
    Ok(entries)
}

} // verus!
