//! The service's forms, tweets and the decisions of its request handlers.
use vstd::prelude::*;

use crate::api::auth::{
    generate_jwt, hash_password, issued_to, issued_token, opt_view, password_hash_of,
    password_matches, signed_by_server, hs256_signature, PASSWORD_KEY, token_claims, verify_decode_jwt, AuthError,
};

pub mod auth;
pub mod db;
pub mod port;

verus! {

/// The form that posts a tweet.
#[derive(Debug, PartialEq, Eq)]
pub struct PostTweetForm {
    pub body: String,
}

/// A tweet: who wrote it and what it says.
#[derive(Debug, PartialEq, Eq)]
pub struct Tweet {
    pub username: String,
    pub body: String,
}

/// The sign-up form.
#[derive(Debug, PartialEq, Eq)]
pub struct SignupForm {
    pub username: String,
    pub password: String,
}

/// The log-in form.
#[derive(Debug, PartialEq, Eq)]
pub struct LoginForm {
    pub username: String,
    pub password: String,
}

/// A signed-in user, known by name.
#[derive(Debug, PartialEq, Eq)]
pub struct User {
    pub username: String,
}

/// The error shown when a new user picks a name that is taken.
pub const USERNAME_TAKEN: &'static str = "This username is already taken. Please choose another";

/// The error shown when a log-in does not match a stored user.
pub const LOGIN_REFUSED: &'static str =
    "The username and password you entered did not match our records. Please double-check and try again.";

/// Why a handler could not finish its work (the server answers with an internal error).
#[derive(Debug)]
pub enum HandlerFailure {
    /// The new user could not be stored.
    StoreUser,
    /// No login token could be issued.
    IssueToken(AuthError),
}

/// The answer to a sign-up or log-in request.
#[derive(Debug)]
pub enum Reply {
    /// 202 Accepted, with the body `{"jwt": token}`.
    Jwt(String),
    /// 400 Bad Request, with the body `{"error": message}`.
    BadRequest(String),
    /// 403 Forbidden, with the body `{"error": message}`.
    Forbidden(String),
    /// The request could not be completed.
    Failed(HandlerFailure),
}

/// What a sign-up asks for next.
#[derive(Debug)]
pub enum SignupStep {
    /// Answer at once.
    Answer(Reply),
    /// Store this user with this password hash, then report with `signup_stored`.
    StoreUser { username: String, pwdhash: String },
}

/// Why a request carries no signed-in user.
#[derive(Debug)]
pub enum AuthFailure {
    /// There is no `Authorization` cookie.
    NoToken,
    /// The cookie's token is not accepted.
    InvalidToken(AuthError),
}

/// The answer that reports an issued token, or the failure to issue one.
pub fn token_reply(token: Result<String, AuthError>) -> (r: Reply)
    ensures
        match token {
            Ok(t) => r == Reply::Jwt(t),
            Err(e) => r == Reply::Failed(HandlerFailure::IssueToken(e)),
        },
{
    match token {
        Ok(t) => Reply::Jwt(t),
        Err(e) => Reply::Failed(HandlerFailure::IssueToken(e)),
    }
}

/// The first decision of a sign-up, given whether the user name is already taken:
/// refuse a taken name, else store the user with the hash of the password.
pub fn signup_step(username_taken: bool, form: SignupForm) -> (step: SignupStep)
    ensures
        username_taken ==> (step matches SignupStep::Answer(Reply::BadRequest(m)) && m@
            == USERNAME_TAKEN@),
        (step is StoreUser) == !username_taken,
        !username_taken ==> (step matches SignupStep::StoreUser { username, pwdhash }
            && username@ == form.username@ && pwdhash@ == password_hash_of(form.password@)
            && pwdhash@ == hs256_signature(PASSWORD_KEY@, form.password@)),
{
    if username_taken {
        return SignupStep::Answer(Reply::BadRequest(USERNAME_TAKEN.to_owned()));
    }
    let pwdhash = hash_password(form.password.as_str());
    SignupStep::StoreUser { username: form.username, pwdhash }
}

/// The end of a sign-up, given whether the user was stored: a fresh login token
/// for the new user.
pub fn signup_stored(stored: bool, username: &str) -> (r: Reply)
    ensures
        !stored ==> (r matches Reply::Failed(HandlerFailure::StoreUser)),
        stored ==> match r {
            Reply::Jwt(t) => issued_to(t@, username@),
            Reply::Failed(HandlerFailure::IssueToken(e)) => e is ClockBeforeEpoch,
            _ => false,
        },
{
    if !stored {
        return Reply::Failed(HandlerFailure::StoreUser);
    }
    token_reply(generate_jwt(username))
}

/// The user names stored after a sign-up for `username`, when the check for a taken
/// name tells the truth (`username_taken` is `names.contains(username)`): the same
/// names when it is taken (`signup_step` answers at once), else one more.
pub open spec fn names_after_signup(names: Seq<Seq<char>>, username: Seq<char>) -> Seq<Seq<char>> {
    if names.contains(username) {
        names
    } else {
        names.push(username)
    }
}

/// Sign-ups keep user names distinct: `signup_step` stores a name only when it is not
/// taken, so a table of distinct names stays one.
pub proof fn lemma_signup_keeps_names_distinct(names: Seq<Seq<char>>, username: Seq<char>)
    requires
        names.no_duplicates(),
    ensures
        names_after_signup(names, username).no_duplicates(),
{
    if !names.contains(username) {
        let after = names.push(username);
        assert forall|i: int, j: int| 0 <= i < after.len() && 0 <= j < after.len() && i != j implies after[i]
            != after[j] by {
            if i == names.len() {
                assert(after[j] == names[j]);
            } else if j == names.len() {
                assert(after[i] == names[i]);
            }
        }
    }
}

/// Whether a log-in with `password` succeeds against the stored hash, if any.
pub open spec fn login_granted(stored_hash: Option<Seq<char>>, password: Seq<char>) -> bool {
    match stored_hash {
        Some(h) => password_matches(h, password),
        None => false,
    }
}

/// The answer to a log-in, given the password hash stored for the user name
/// (`None` when it cannot be read): a fresh login token when the password matches,
/// else a refusal.
pub fn login_reply(stored_hash: Option<String>, form: &LoginForm) -> (r: Reply)
    ensures
        !login_granted(opt_view(stored_hash), form.password@) ==> (r matches Reply::Forbidden(
            m,
        ) && m@ == LOGIN_REFUSED@),
        login_granted(opt_view(stored_hash), form.password@) ==> match r {
            Reply::Jwt(t) => issued_to(t@, form.username@),
            Reply::Failed(HandlerFailure::IssueToken(e)) => e is ClockBeforeEpoch,
            _ => false,
        },
        r is Jwt ==> (stored_hash matches Some(h) && h@ == hs256_signature(
            PASSWORD_KEY@,
            form.password@,
        )),
        !(stored_hash matches Some(h) && h@ == hs256_signature(PASSWORD_KEY@, form.password@)) ==> (
        r matches Reply::Forbidden(m) && m@ == LOGIN_REFUSED@),
        (stored_hash matches Some(h) && h@ == hs256_signature(PASSWORD_KEY@, form.password@)) ==> !(
        r is Forbidden),
{
    if let Some(pwdhash) = stored_hash {
        if auth::verify_pwdhash(pwdhash.as_str(), form.password.as_str()) {
            return token_reply(generate_jwt(form.username.as_str()));
        }
    }
    Reply::Forbidden(LOGIN_REFUSED.to_owned())
}

/// A log-in is granted exactly when a hash is stored for the user name and it is the
/// HS256 signature, under `PASSWORD_KEY`, of the submitted password.
pub proof fn lemma_login_granted_exactly(stored_hash: Option<Seq<char>>, password: Seq<char>)
    ensures
        login_granted(stored_hash, password) <==> stored_hash == Some(
            hs256_signature(PASSWORD_KEY@, password),
        ),
{
}

/// A user who signs up with a password can then log in with it: the hash that
/// `signup_step` stores grants a log-in with the same password.
pub proof fn lemma_signup_then_login(password: Seq<char>)
    ensures
        login_granted(Some(password_hash_of(password)), password),
        login_granted(Some(hs256_signature(PASSWORD_KEY@, password)), password),
{
}

impl User {
    /// The signed-in user that a request's `Authorization` cookie names.
    /// A cookie holding a token issued to a user signs that user in.
    pub fn from_cookie(cookie: Option<&str>) -> (r: Result<User, AuthFailure>)
        ensures
            match cookie {
                None => r matches Err(AuthFailure::NoToken),
                Some(token) => match token_claims(token@) {
                    Some((sub, _)) => r matches Ok(u) && u.username@ == sub,
                    None => r matches Err(AuthFailure::InvalidToken(_)),
                },
            },
            forall|name: Seq<char>, iat: u64|
                cookie matches Some(token) && token@ == #[trigger] issued_token(name, iat) ==> (
                r matches Ok(u) && u.username@ == name),
            r is Ok ==> (cookie matches Some(token) && signed_by_server(token@)),
    {
        match cookie {
            None => Err(AuthFailure::NoToken),
            Some(token) => match verify_decode_jwt(token) {
                Ok(claims) => Ok(User { username: claims.sub }),
                Err(e) => Err(AuthFailure::InvalidToken(e)),
            },
        }
    }
}

/// The tweet that a post stores: none for an empty body, else the body under the
/// poster's name.
pub fn tweet_to_store(form: PostTweetForm, user: User) -> (r: Option<Tweet>)
    ensures
        form.body@.len() == 0 ==> r is None,
        form.body@.len() > 0 ==> r == Some(Tweet { username: user.username, body: form.body }),
{
    if form.body.as_str().is_empty() {
        None
    } else {
        Some(Tweet { username: user.username, body: form.body })
    }
}

/// What the cookie test page shows: `cookie found: ` and the `Authorization` cookie's
/// value, when there is one.
pub fn cookie_report(cookie: Option<&str>) -> (r: Option<String>)
    ensures
        match cookie {
            None => r is None,
            Some(v) => r matches Some(s) && s@ == COOKIE_FOUND@ + v@,
        },
{
    match cookie {
        None => None,
        Some(v) => {
            let mut s = COOKIE_FOUND.to_owned();
            s.append(v);
            Some(s)
        },
    }
}

/// The text before the cookie's value on the cookie test page.
pub const COOKIE_FOUND: &'static str = "cookie found: ";

/// The page served at the root path.
#[derive(Debug, Clone, Copy, PartialEq, Eq, Structural)]
pub enum Page {
    /// The web app, for a visitor who is not signed in.
    Home,
    /// The dashboard of tweets, for a signed-in user.
    Dashboard,
}

/// Which page the root path serves, given the request's `Authorization` cookie:
/// a new visitor gets the web app, while a returning user with a valid token goes
/// straight to the dashboard.
pub fn root_page(cookie: Option<&str>) -> (page: Page)
    ensures
        match cookie {
            None => page == Page::Home,
            Some(token) => page == (if token_claims(token@) is Some {
                Page::Dashboard
            } else {
                Page::Home
            }),
        },
        forall|name: Seq<char>, iat: u64|
            cookie matches Some(token) && token@ == #[trigger] issued_token(name, iat) ==> page
                == Page::Dashboard,
        page == Page::Dashboard ==> (cookie matches Some(token) && signed_by_server(token@)),
{
    match User::from_cookie(cookie) {
        Ok(_) => Page::Dashboard,
        Err(_) => Page::Home,
    }
}

} // verus!
