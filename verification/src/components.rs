//! The fragments that the pages load.
use vstd::prelude::*;

use crate::model::LoginFieldComponents;

verus! {

/// The query of the login-field fragment: the user that was chosen.
#[derive(Debug, PartialEq, Eq)]
pub struct LoginFieldQuery {
    user: String,
}

impl View for LoginFieldQuery {
    type V = Seq<char>;

    closed spec fn view(&self) -> Seq<char> {
        self.user@
    }
}

impl LoginFieldQuery {
    /// The query for `user`.
    pub fn new(user: String) -> (q: LoginFieldQuery)
        ensures
            q@ == user@,
    {
        LoginFieldQuery { user }
    }

    /// The chosen user.
    pub fn user(&self) -> (u: &str)
        ensures
            u@ == self@,
    {
        self.user.as_str()
    }
}

/// The login field for the user of the query.
pub fn login_field(query: &LoginFieldQuery) -> (field: LoginFieldComponents<'_>)
    ensures
        field.first_name@ == query@,
{
    LoginFieldComponents { first_name: query.user.as_str() }
}

} // verus!
