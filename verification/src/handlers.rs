//! What the pages answer: the landing page, which depends on the session
//! cookie, and the login form.
use vstd::prelude::*;

use crate::auth::{
    claims_json_spec, claims_view_at, jwt_hs256, latest_clock_reading, ClaimsView, bcrypt_verify, encode_jwt_with_clock, seconds_since_epoch, session_cookie, session_cookie_spec,
    token_from_clock, token_view, verify_password, Claims,
};
use crate::json::decimal;
use crate::model::{Game, GameZonePage, HomePage, User};
use crate::HttpStatus;

verus! {

/// The login form.
#[derive(Debug, PartialEq, Eq)]
pub struct LoginBody {
    pub first_name: String,
    pub password: String,
}

/// What a login is answered with.
#[derive(Debug, PartialEq, Eq)]
pub enum LoginOutcome {
    /// The "went wrong" fragment, for the first name that was entered.
    WentWrong { first_name: String },
    /// `302 Found` to `location`, setting the session cookie.
    Redirect { location: String, set_cookie: String },
}

/// What a `LoginOutcome` holds, as plain values.
pub enum LoginReply {
    WentWrong { first_name: Seq<char> },
    Redirect { location: Seq<char>, set_cookie: Seq<char> },
}

impl View for LoginOutcome {
    type V = LoginReply;

    open spec fn view(&self) -> LoginReply {
        match self {
            LoginOutcome::WentWrong { first_name } => LoginReply::WentWrong { first_name: first_name@ },
            LoginOutcome::Redirect { location, set_cookie } => LoginReply::Redirect {
                location: location@,
                set_cookie: set_cookie@,
            },
        }
    }
}

/// Where a logged-in user is sent: the game zone, with the first name in the query.
pub open spec fn game_zone_location(first_name: Seq<char>) -> Seq<char> {
    "/components/game-zone?user="@ + first_name
}

/// The answer to a login once the token is or is not issued.
pub open spec fn login_reply(first_name: Seq<char>, token: Option<Seq<char>>) -> LoginReply {
    match token {
        Some(t) => LoginReply::Redirect {
            location: game_zone_location(first_name),
            set_cookie: session_cookie_spec(t),
        },
        None => LoginReply::WentWrong { first_name },
    }
}

/// The answer to a login whose password matched, given the outcome of
/// issuing the session token.
pub fn login_response(first_name: &str, token: Result<String, HttpStatus>) -> (out: LoginOutcome)
    ensures
        out@ == login_reply(first_name@, token_view(token)),
{
    match token {
        Ok(t) => {
            let mut location = String::new();
            location.append("/components/game-zone?user=");
            location.append(first_name);
            LoginOutcome::Redirect { location, set_cookie: session_cookie(t.as_str()) }
        },
        Err(_) => LoginOutcome::WentWrong { first_name: first_name.to_owned() },
    }
}

/// The answer to a login, given the user row found under the first name
/// (`None` where the lookup failed) and the system clock at the moment the
/// token is issued (`secs` whole seconds after the epoch; `None`: before it).
pub open spec fn login_answer(form: LoginBody, user: Option<User>, secret: Seq<char>, secs: Option<u64>) -> LoginReply {
    match user {
        Some(u) => if bcrypt_verify(form.password@, u.password_hash@) == Some(true) {
            login_reply(form.first_name@, token_from_clock(secs, u.username@, secret))
        } else {
            LoginReply::WentWrong { first_name: form.first_name@ }
        },
        None => LoginReply::WentWrong { first_name: form.first_name@ },
    }
}

/// A user whose stored bcrypt hash verifies the password is logged in at
/// every clock reading within the dates that claims are written for: the
/// answer redirects to the game zone under the first name as entered, and
/// sets the `auth_token` cookie, HttpOnly for the whole site for fourteen
/// days, to the token that signs the claims of the user's username issued
/// at the reading and expiring fourteen days later.
pub proof fn lemma_verified_password_logs_in(form: LoginBody, u: User, secret: Seq<char>, now: u64)
    requires
        bcrypt_verify(form.password@, u.password_hash@) == Some(true),
        now <= latest_clock_reading(),
    ensures
        login_answer(form, Some(u), secret, Some(now)) == (LoginReply::Redirect {
            location: "/components/game-zone?user="@ + form.first_name@,
            set_cookie: "auth_token="@ + jwt_hs256(
                claims_json_spec(
                    ClaimsView {
                        exp: (now + 1209600) as usize,
                        iat: now as usize,
                        email: u.username@,
                    },
                ),
                secret,
            ) + "; HttpOnly; Path=/; Max-Age=1209600"@,
        }),
{
    reveal_strlit("auth_token");
    reveal_strlit("auth_token=");
    reveal_strlit("; HttpOnly");
    reveal_strlit("; Path=");
    reveal_strlit("; Max-Age=");
    reveal_strlit("; HttpOnly; Path=/; Max-Age=1209600");
    reveal_with_fuel(decimal, 8);
    let t = jwt_hs256(
        claims_json_spec(ClaimsView { exp: (now + 1209600) as usize, iat: now as usize, email: u.username@ }),
        secret,
    );
    assert(claims_view_at(now as i64, u.username@) == ClaimsView {
        exp: (now + 1209600) as usize,
        iat: now as usize,
        email: u.username@,
    });
    assert(decimal(1209600) =~= seq!['1', '2', '0', '9', '6', '0', '0']);
    assert(session_cookie_spec(t) =~= "auth_token="@ + t + "; HttpOnly; Path=/; Max-Age=1209600"@);
}

/// A login is refused, answering the "went wrong" fragment for the first
/// name as entered, where no user row was found, where the password does not
/// verify against the row's hash, or where the clock reads before the epoch
/// or past the dates that claims are written for.
pub proof fn lemma_login_refused(form: LoginBody, user: Option<User>, secret: Seq<char>, secs: Option<u64>)
    requires
        match user {
            None => true,
            Some(u) => bcrypt_verify(form.password@, u.password_hash@) != Some(true),
        } || match secs {
            None => true,
            Some(t) => t > latest_clock_reading(),
        },
    ensures
        login_answer(form, user, secret, secs) == (LoginReply::WentWrong { first_name: form.first_name@ }),
{
}

/// A login, given the user row found under the first name and the system
/// clock reading that the session token is issued at. The user is logged in
/// exactly where the row exists, the password matches its bcrypt hash and
/// the clock reads within the dates that claims are written for: the answer
/// then redirects to the game zone, setting the cookie with the token for
/// the username at that reading. Every other case is answered with the
/// "went wrong" fragment.
pub fn login_with_clock(form: &LoginBody, user: Option<User>, jwt_secret: &str, secs: Option<u64>) -> (out: LoginOutcome)
    ensures
        out@ == login_answer(*form, user, jwt_secret@, secs),
{
    match user {
        None => LoginOutcome::WentWrong { first_name: form.first_name.clone() },
        Some(u) => {
            let verified = verify_password(form.password.as_str(), u.password_hash.as_str());
            match verified {
                Some(true) => {
                    let token = encode_jwt_with_clock(secs, u.username, jwt_secret);
                    login_response(form.first_name.as_str(), token)
                },
                _ => LoginOutcome::WentWrong { first_name: form.first_name.clone() },
            }
        },
    }
}

/// A login, given the user row found under the first name (`None` where the
/// lookup failed), reading the system clock once the password has matched:
/// the answer of `login_with_clock` for that reading.
pub fn login(form: &LoginBody, user: Option<User>, jwt_secret: &str) -> (out: LoginOutcome)
    ensures
        exists|secs: Option<u64>| out@ == #[trigger] login_answer(*form, user, jwt_secret@, secs),
{
    match user {
        None => {
            let out = LoginOutcome::WentWrong { first_name: form.first_name.clone() };
            assert(out@ == login_answer(*form, user, jwt_secret@, None));
            out
        },
        Some(u) => {
            let verified = verify_password(form.password.as_str(), u.password_hash.as_str());
            match verified {
                Some(true) => {
                    let secs = seconds_since_epoch();
                    let token = encode_jwt_with_clock(secs, u.username, jwt_secret);
                    let out = login_response(form.first_name.as_str(), token);
                    assert(out@ == login_answer(*form, user, jwt_secret@, secs));
                    out
                },
                _ => {
                    let out = LoginOutcome::WentWrong { first_name: form.first_name.clone() };
                    assert(out@ == login_answer(*form, user, jwt_secret@, None));
                    out
                },
            }
        },
    }
}

/// The first step of the landing page, from the session cookie.
#[derive(Debug, PartialEq, Eq)]
pub enum HomeStep {
    /// A session cookie was sent: verify its token.
    VerifyToken { token: String },
    /// No session cookie: list the users.
    ListUsers,
}

/// The landing page once the session token is checked.
#[derive(Debug, PartialEq, Eq)]
pub enum SessionCheck {
    /// The token verified: show the game zone of its user.
    ShowGameZone { username: String },
    /// The token did not verify: show the error page.
    ShowErrorPage,
}

/// What the landing page does first, given the `auth_token` cookie, if any.
pub fn home_start(auth_token: Option<String>) -> (step: HomeStep)
    ensures
        match auth_token {
            Some(t) => step == (HomeStep::VerifyToken { token: t }),
            None => step == HomeStep::ListUsers,
        },
{
    match auth_token {
        Some(token) => HomeStep::VerifyToken { token },
        None => HomeStep::ListUsers,
    }
}

/// What the landing page shows, given the claims of a token that verified,
/// or `None` for one that did not: the game zone under the name that the
/// token carries, or the error page.
pub fn home_session(claims: Option<Claims>) -> (check: SessionCheck)
    ensures
        match claims {
            Some(c) => check == (SessionCheck::ShowGameZone { username: c.email }),
            None => check == SessionCheck::ShowErrorPage,
        },
{
    match claims {
        Some(c) => SessionCheck::ShowGameZone { username: c.email },
        None => SessionCheck::ShowErrorPage,
    }
}

/// The game zone page of `username`, with the games as they were fetched.
pub fn game_zone_page<'a>(username: &'a str, games: Vec<Game>) -> (page: GameZonePage<'a>)
    ensures
        page.first_name@ == username@,
        page.games@ == games@,
{
    GameZonePage { first_name: username, games }
}

/// The landing page of a visitor without a session: the users in the
/// reverse of the order in which they were fetched.
pub fn home_page(users: Vec<User>) -> (page: HomePage)
    ensures
        page.users@ == users@.reverse(),
{
    let mut rest = users;
    let mut listed: Vec<User> = Vec::new();
    while rest.len() > 0
        invariant
            listed@ + rest@.reverse() == users@.reverse(),
        decreases rest.len(),
    {
        let ghost before = rest@;
        let u = rest.pop().unwrap();
        proof {
            assert(before.reverse() =~= seq![u] + rest@.reverse());
        }
        listed.push(u);
        proof {
            assert(listed@ + rest@.reverse() =~= users@.reverse());
        }
    }
    proof {
        assert(rest@.reverse() =~= Seq::<User>::empty());
        assert(listed@ =~= users@.reverse());
    }
    HomePage { users: listed }
}

} // verus!
