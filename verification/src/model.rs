//! The rows of the database and the values that the pages are rendered from.
use vstd::prelude::*;

verus! {

/// A row of the `users` table.
#[derive(Debug, PartialEq, Eq)]
pub struct User {
    pub id: i32,
    pub first_name: String,
    pub last_name: String,
    pub username: String,
    pub password_hash: String,
}

/// A row of the `games` table.
#[derive(Debug, PartialEq, Eq)]
pub struct Game {
    pub id: i32,
    pub title: String,
    pub description: String,
    pub slug: String,
}

/// The landing page: the users that can log in.
#[derive(Debug, PartialEq, Eq)]
pub struct HomePage {
    pub users: Vec<User>,
}

/// The password field shown for a chosen user.
#[derive(Debug, PartialEq, Eq)]
pub struct LoginFieldComponents<'a> {
    pub first_name: &'a str,
}

/// The answer to a failed login.
#[derive(Debug, PartialEq, Eq)]
pub struct WentWrongComponent<'a> {
    pub first_name: &'a str,
}

/// The game zone fragment of a logged-in user.
#[derive(Debug, PartialEq, Eq)]
pub struct GameZoneComponent<'a> {
    pub first_name: &'a str,
}

/// One game of the game zone.
#[derive(Debug, PartialEq, Eq)]
pub struct GameComponent<'a> {
    pub slug: &'a str,
}

/// The game zone page of a logged-in user.
#[derive(Debug, PartialEq, Eq)]
pub struct GameZonePage<'a> {
    pub first_name: &'a str,
    pub games: Vec<Game>,
}

/// The page shown for a session token that does not verify.
#[derive(Debug, PartialEq, Eq)]
pub struct ErrorPage;

} // verus!
