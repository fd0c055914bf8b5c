//! Session tokens: their claims, the JSON text that is signed, the token
//! itself and the cookie that carries it; and the password check.
use vstd::prelude::*;

use crate::json::{decimal, hex_digit, json_escape, json_string, push_decimal, push_json_string};
use crate::HttpStatus;

verus! {

/// How long a session lasts: fourteen days, in seconds.
pub const SESSION_LIFETIME_SECS: i64 = 1209600;

/// The bcrypt cost that stored passwords are hashed with (`bcrypt::DEFAULT_COST`).
pub const PASSWORD_HASH_COST: u32 = 12;

/// The name of the cookie that carries the session token.
pub const AUTH_COOKIE_NAME: &'static str = "auth_token";

/// The claims that a session token carries.
#[derive(Debug, PartialEq, Eq)]
pub struct Claims {
    pub exp: usize,
    pub iat: usize,
    pub email: String,
}

/// What a `Claims` holds, as plain values.
pub struct ClaimsView {
    pub exp: usize,
    pub iat: usize,
    pub email: Seq<char>,
}

impl View for Claims {
    type V = ClaimsView;

    open spec fn view(&self) -> ClaimsView {
        ClaimsView { exp: self.exp, iat: self.iat, email: self.email@ }
    }
}

/// The JSON text of the claims: `{"exp":..,"iat":..,"email":".."}`.
pub open spec fn claims_json_spec(c: ClaimsView) -> Seq<char> {
    seq!['{', '"', 'e', 'x', 'p', '"', ':'] + decimal(c.exp as nat)
        + seq![',', '"', 'i', 'a', 't', '"', ':'] + decimal(c.iat as nat)
        + seq![',', '"', 'e', 'm', 'a', 'i', 'l', '"', ':'] + json_string(c.email)
        + seq!['}']
}

/// The latest clock reading for which the expiry is representable.
pub open spec fn latest_issue_time() -> int {
    i64::MAX - SESSION_LIFETIME_SECS
}

/// The claims of a session issued at `now` (seconds since the epoch):
/// issued now, expiring fourteen days later.
pub open spec fn claims_view_at(now: i64, email: Seq<char>) -> ClaimsView {
    ClaimsView {
        exp: (now + SESSION_LIFETIME_SECS) as usize,
        iat: now as usize,
        email: email,
    }
}

/// The token made by signing the claims JSON text with HS256 under the
/// default header and the given secret.
pub uninterp spec fn jwt_hs256(claims_json: Seq<char>, secret: Seq<char>) -> Seq<char>;

/// Whether `password` matches the bcrypt `hash`; `None` where the hash
/// cannot be read.
pub uninterp spec fn bcrypt_verify(password: Seq<char>, hash: Seq<char>) -> Option<bool>;

/// The token for `email` whose claims are those of a session issued at `now`.
pub open spec fn issued_token(now: i64, email: Seq<char>, secret: Seq<char>) -> Seq<char> {
    jwt_hs256(claims_json_spec(claims_view_at(now, email)), secret)
}

/// The token issued at `now` for `email`, or `None` where none is issued:
/// where the expiry would not fit an `i64`.
pub open spec fn token_at(now: i64, email: Seq<char>, secret: Seq<char>) -> Option<Seq<char>> {
    if now <= latest_issue_time() {
        Some(issued_token(now, email, secret))
    } else {
        None
    }
}

/// The largest reading of the clock that a session is issued at: the last
/// second of the year 262142, the latest time that `chrono` represents.
pub open spec fn latest_clock_reading() -> int {
    8_210_266_876_799
}

/// Whether `t` is a reading that the clock can give, in seconds since the epoch.
pub open spec fn is_clock_reading(t: i64) -> bool {
    0 <= t <= latest_clock_reading()
}

/// The clock reading, in seconds since the epoch, that sessions are issued
/// at for a system clock at `secs` whole seconds after the epoch (`None`:
/// before the epoch); `None` past the latest date that claims are written for.
pub open spec fn clock_reading_spec(secs: Option<u64>) -> Option<i64> {
    match secs {
        Some(s) => if s <= latest_clock_reading() {
            Some(s as i64)
        } else {
            None
        },
        None => None,
    }
}

/// The token issued for a system clock at `secs`, or `None` where none is.
pub open spec fn token_from_clock(secs: Option<u64>, email: Seq<char>, secret: Seq<char>) -> Option<
    Seq<char>,
> {
    match clock_reading_spec(secs) {
        Some(now) => Some(issued_token(now, email, secret)),
        None => None,
    }
}

/// The token that an issuing call returned, or `None` where it failed.
pub open spec fn token_view(r: Result<String, HttpStatus>) -> Option<Seq<char>> {
    match r {
        Ok(t) => Some(t@),
        Err(_) => None,
    }
}

/// The `Set-Cookie` value that carries a session token.
pub open spec fn session_cookie_spec(token: Seq<char>) -> Seq<char> {
    AUTH_COOKIE_NAME@ + seq!['='] + token + cookie_attributes(true, seq!['/'], SESSION_LIFETIME_SECS as int)
}

/// The attributes that follow `name=value` in a cookie with these settings.
pub open spec fn cookie_attributes(http_only: bool, path: Seq<char>, max_age: int) -> Seq<char> {
    (if http_only { "; HttpOnly"@ } else { Seq::empty() }) + "; Path="@ + path + "; Max-Age="@
        + signed_decimal(max_age)
}

/// The decimal digits of `n`, after a minus sign where it is negative.
pub open spec fn signed_decimal(n: int) -> Seq<char> {
    if n < 0 {
        seq!['-'] + decimal((-n) as nat)
    } else {
        decimal(n as nat)
    }
}

/// A session's cookie lasts exactly as long as its token: the claims of a
/// token issued at `now` expire `SESSION_LIFETIME_SECS` after they were
/// issued, and the cookie that carries any token has that `Max-Age`. (For a
/// `now` before the epoch, which the clock never reads, or an expiry beyond
/// `usize::MAX`, the `as usize` conversion wraps and the law fails.)
pub proof fn lemma_cookie_lasts_as_long_as_token(now: i64, email: Seq<char>, token: Seq<char>)
    requires
        0 <= now,
        now + SESSION_LIFETIME_SECS <= usize::MAX,
    ensures
        ({
            let c = claims_view_at(now, email);
            &&& c.iat == now
            &&& c.exp - c.iat == SESSION_LIFETIME_SECS
            &&& session_cookie_spec(token) == AUTH_COOKIE_NAME@ + seq!['='] + token
                + cookie_attributes(true, seq!['/'], c.exp - c.iat)
        }),
{
}

/// The claims of a session carry the name they are issued for, unchanged;
/// where the reading and its expiry fit a `usize`, they are issued at the
/// reading and expire fourteen days (1209600 seconds) later.
pub proof fn lemma_claims_name_their_user(now: i64, email: Seq<char>)
    ensures
        claims_view_at(now, email).email == email,
        0 <= now && now + 1209600 <= usize::MAX ==> claims_view_at(now, email).iat == now
            && claims_view_at(now, email).exp == now + 1209600,
{
}

/// The claims text is the JSON object of the three claims, in the order
/// `exp`, `iat`, `email`: the two numbers in decimal, the name as an escaped
/// JSON string.
pub proof fn lemma_claims_text(c: ClaimsView)
    ensures
        claims_json_spec(c) == "{\"exp\":"@ + decimal(c.exp as nat) + ",\"iat\":"@ + decimal(
            c.iat as nat,
        ) + ",\"email\":\""@ + json_escape(c.email) + "\"}"@,
{
    reveal_strlit("{\"exp\":");
    reveal_strlit(",\"iat\":");
    reveal_strlit(",\"email\":\"");
    reveal_strlit("\"}");
    assert(claims_json_spec(c) =~= "{\"exp\":"@ + decimal(c.exp as nat) + ",\"iat\":"@ + decimal(
        c.iat as nat,
    ) + ",\"email\":\""@ + json_escape(c.email) + "\"}"@);
}

/// A token is issued at every reading of the clock, and it depends on
/// nothing but that reading, the name and the secret: no nonce goes into it.
pub proof fn lemma_token_issued_at_every_clock_reading(now: i64, email: Seq<char>, secret: Seq<char>)
    requires
        is_clock_reading(now),
    ensures
        token_at(now, email, secret) == Some(issued_token(now, email, secret)),
{
}

/// `jsonwebtoken::encode` with the default header (HS256) and
/// `EncodingKey::from_secret`, on the claims given as their JSON text
/// (`serde_json::value::RawValue::from_string`). The contract says that the
/// token is a function of the text and the secret, and that one comes back
/// for every text of the claims form: `RawValue::from_string` errs only on
/// text that is not JSON, and `encode` with an HMAC key under the HS256 header
/// never errs. Any error becomes `None`.
#[verifier::external_body]
fn sign_claims(claims_json: String, secret: &str) -> (token: Option<String>)
    ensures
        token matches Some(t) ==> t@ == jwt_hs256(claims_json@, secret@),
        (exists|c: ClaimsView| claims_json@ == #[trigger] claims_json_spec(c)) ==> token is Some,
{
    let raw = serde_json::value::RawValue::from_string(claims_json).ok()?;
    let key = jsonwebtoken::EncodingKey::from_secret(secret.as_bytes());
    jsonwebtoken::encode(&jsonwebtoken::Header::default(), &raw, &key).ok()
}

/// `bcrypt::verify`. The contract says that the outcome is a function of the
/// password and the hash; an error becomes `None`.
#[verifier::external_body]
pub(crate) fn verify_password(password: &str, hash: &str) -> (verified: Option<bool>)
    ensures
        verified == bcrypt_verify(password@, hash@),
{
    bcrypt::verify(password, hash).ok()
}

/// The shape of a bcrypt hash string of version 2b at `cost` (below 100):
/// `$2b$`, the cost in two digits, `$`, and 53 more characters.
pub open spec fn bcrypt_hash_shape(s: Seq<char>, cost: nat) -> bool {
    &&& s.len() == 60
    &&& s.subrange(0, 7) == seq!['$', '2', 'b', '$', hex_digit(cost / 10), hex_digit(cost % 10), '$']
}

/// `bcrypt::hash` with the given cost, on a fresh random salt. The contract
/// says that a hash it returns verifies with the same password
/// (`bcrypt::verify` re-hashes under the salt and cost that the hash records),
/// and that a cost outside 4..=31 is refused; and the shape in which
/// `HashParts::format` writes it: `$2b$`, the cost in two digits, `$`, then
/// 22 characters of salt and 31 of hash. The salt and hash characters depend
/// on the random salt and are not stated; whether the system's randomness
/// answers is not stated either. An error becomes `None`.
#[verifier::external_body]
fn bcrypt_hash(password: &str, cost: u32) -> (h: Option<String>)
    ensures
        h matches Some(s) ==> bcrypt_verify(password@, s@) == Some(true),
        h matches Some(s) ==> bcrypt_hash_shape(s@, cost as nat),
        (cost < 4 || cost > 31) ==> h is None,
{
    bcrypt::hash(password, cost).ok()
}

/// `std::time::SystemTime::now().duration_since(UNIX_EPOCH)`, in whole
/// seconds: the system clock. `None` where it reads before the epoch.
/// Nothing is promised of the value.
#[verifier::external_body]
pub(crate) fn seconds_since_epoch() -> Option<u64> {
    std::time::SystemTime::now().duration_since(std::time::UNIX_EPOCH).ok().map(|d| d.as_secs())
}

/// The clock reading that sessions are issued at, for a system clock at
/// `secs` whole seconds after the epoch (`None`: before it): the seconds,
/// up to the last second of the year 262142; `None` past it.
pub fn clock_reading(secs: Option<u64>) -> (t: Option<i64>)
    ensures
        t == clock_reading_spec(secs),
        t matches Some(now) ==> is_clock_reading(now),
{
    match secs {
        Some(s) => if s <= 8_210_266_876_799 {
            Some(s as i64)
        } else {
            None
        },
        None => None,
    }
}

/// `cookie::Cookie::build((name, value))` with `path`, `max_age` (as a
/// `time::Duration` of whole seconds) and `http_only` set, formatted with
/// `to_string`: the name, `=`, the value, then the attributes in the order in
/// which the crate writes them, without percent-encoding.
#[verifier::external_body]
fn format_cookie(name: &str, value: &str, path: &str, max_age_secs: i64, http_only: bool) -> (c: String)
    ensures
        c@ == name@ + seq!['='] + value@ + cookie_attributes(http_only, path@, max_age_secs as int),
{
    cookie::Cookie::build((name.to_string(), value.to_string()))
        .path(path.to_string())
        .max_age(time::Duration::seconds(max_age_secs))
        .http_only(http_only)
        .to_string()
}

/// The claims of a session for `email` issued at `now`.
pub fn claims_at(now: i64, email: String) -> (c: Claims)
    requires
        now <= latest_issue_time(),
    ensures
        c@ == claims_view_at(now, email@),
{
    let exp: i64 = now + SESSION_LIFETIME_SECS;
    Claims { exp: exp as usize, iat: now as usize, email }
}

/// The JSON text of the claims, as serde_json writes the struct.
pub fn claims_json(c: &Claims) -> (s: String)
    ensures
        s@ == claims_json_spec(c@),
{
    let mut s = String::new();
    s.append("{\"exp\":");
    push_decimal(&mut s, c.exp as u64);
    s.append(",\"iat\":");
    push_decimal(&mut s, c.iat as u64);
    s.append(",\"email\":");
    push_json_string(&mut s, c.email.as_str());
    s.append("}");
    proof {
        reveal_strlit("{\"exp\":");
        reveal_strlit(",\"iat\":");
        reveal_strlit(",\"email\":");
        reveal_strlit("}");
        assert(s@ =~= claims_json_spec(c@));
    }
    s
}

/// The session token for `email` issued at `now`: the signed claims, or
/// `InternalServerError` where the expiry would not fit an `i64`.
pub fn encode_jwt_at(now: i64, email: String, secret: &str) -> (r: Result<String, HttpStatus>)
    ensures
        match r {
            Ok(t) => token_at(now, email@, secret@) == Some(t@),
            Err(e) => token_at(now, email@, secret@) is None && e == HttpStatus::InternalServerError,
        },
        now <= latest_issue_time() <==> r is Ok,
{
    if now > i64::MAX - SESSION_LIFETIME_SECS {
        return Err(HttpStatus::InternalServerError);
    }
    let claims = claims_at(now, email);
    let text = claims_json(&claims);
    match sign_claims(text, secret) {
        Some(t) => Ok(t),
        None => {
            // The text is of the claims form, so signing it cannot fail.
            assert(false);
            Err(HttpStatus::InternalServerError)
        },
    }
}

/// The session token for `email` when the system clock reads `secs` whole
/// seconds after the epoch (`None`: before it): issued at that reading, or
/// `InternalServerError` where the clock reads outside the dates that
/// claims are written for.
pub fn encode_jwt_with_clock(secs: Option<u64>, email: String, secret: &str) -> (r: Result<
    String,
    HttpStatus,
>)
    ensures
        token_view(r) == token_from_clock(secs, email@, secret@),
        r matches Err(e) ==> e == HttpStatus::InternalServerError,
{
    match clock_reading(secs) {
        Some(now) => {
            let r = encode_jwt_at(now, email, secret);
            proof {
                lemma_token_issued_at_every_clock_reading(now, email@, secret@);
            }
            r
        },
        None => Err(HttpStatus::InternalServerError),
    }
}

/// The session token for `email`, issued at the time the system clock reads,
/// with the claims of that reading; `InternalServerError` answers only a
/// system clock that reads before the epoch or after the last date that
/// claims are written for.
pub fn encode_jwt(email: String, secret: &str) -> (r: Result<String, HttpStatus>)
    ensures
        exists|secs: Option<u64>| token_view(r) == #[trigger] token_from_clock(secs, email@, secret@),
        r matches Err(e) ==> e == HttpStatus::InternalServerError,
{
    encode_jwt_with_clock(seconds_since_epoch(), email, secret)
}

/// A bcrypt hash of `password` to store, under a fresh salt: the password
/// verifies against it, so a user stored with it can log in with the
/// password. The hash records version 2b and the cost. `None` where no hash
/// could be made, which with this cost is where the system's randomness
/// does not answer.
pub fn hash_password(password: &str) -> (h: Option<String>)
    ensures
        h matches Some(s) ==> bcrypt_verify(password@, s@) == Some(true),
        h matches Some(s) ==> s@.len() == 60 && s@.subrange(0, 7) == "$2b$12$"@,
{
    let h = bcrypt_hash(password, PASSWORD_HASH_COST);
    proof {
        reveal_strlit("$2b$12$");
    }
    h
}

/// The `Set-Cookie` value that carries a session token: HttpOnly, for the
/// whole site, for the lifetime of the session.
pub fn session_cookie(token: &str) -> (c: String)
    ensures
        c@ == session_cookie_spec(token@),
{
    let c = format_cookie(AUTH_COOKIE_NAME, token, "/", SESSION_LIFETIME_SECS, true);
    proof {
        reveal_strlit("/");
    }
    c
}

} // verus!
