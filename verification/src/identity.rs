//! The user on whose behalf the tool runs.

use vstd::prelude::*;

verus! {

/// The name and email that git is configured with for the current user.
#[derive(Debug, PartialEq, Eq)]
pub struct UserIdentity {
    pub name: String,
    pub email: String,
}

/// The content of a [`UserIdentity`] as plain character sequences.
pub struct UserIdentityView {
    pub name: Seq<char>,
    pub email: Seq<char>,
}

impl View for UserIdentity {
    type V = UserIdentityView;

    open spec fn view(&self) -> UserIdentityView {
        UserIdentityView { name: self.name@, email: self.email@ }
    }
}

/// The identity that a configuration gives: the configured name and email,
/// with a placeholder for each one that is not set.
pub open spec fn configured_identity(
    name: Option<Seq<char>>,
    email: Option<Seq<char>>,
) -> UserIdentityView {
    UserIdentityView {
        name: match name {
            Some(name) => name,
            None => "Unknown User"@,
        },
        email: match email {
            Some(email) => email,
            None => "Unknown Email"@,
        },
    }
}

/// Makes the current user's identity from the values of `user.name` and
/// `user.email` in the git configuration, each `None` where it is not set.
pub fn get_current_user_info(name: Option<String>, email: Option<String>) -> (user: UserIdentity)
    ensures
        user@ == configured_identity(name.deep_view(), email.deep_view()),
{
    let name: String = match name {
        Some(name) => name,
        None => "Unknown User".to_owned(),
    };
    let email: String = match email {
        Some(email) => email,
        None => "Unknown Email".to_owned(),
    };
    UserIdentity { name, email }
}

} // verus!
