use cwitter::api::auth::{generate_jwt_at, hash_password, verify_decode_jwt, AuthError};
use cwitter::api::db::get_tweets;
use cwitter::api::{
    cookie_report, login_reply, signup_step, signup_stored, token_reply, tweet_to_store, AuthFailure,
    HandlerFailure, LoginForm, PostTweetForm, Reply, SignupForm, SignupStep, Tweet, User,
    LOGIN_REFUSED, USERNAME_TAKEN,
};

fn signup(name: &str, password: &str) -> SignupForm {
    SignupForm { username: name.to_string(), password: password.to_string() }
}

fn login(name: &str, password: &str) -> LoginForm {
    LoginForm { username: name.to_string(), password: password.to_string() }
}

fn tweet(name: &str, body: &str) -> Tweet {
    Tweet { username: name.to_string(), body: body.to_string() }
}

#[test]
fn taken_username_is_refused() {
    match signup_step(true, signup("alice", "pw")) {
        SignupStep::Answer(Reply::BadRequest(m)) => {
            assert_eq!(m, "This username is already taken. Please choose another");
            assert_eq!(m, USERNAME_TAKEN);
        }
        other => panic!("unexpected {:?}", other),
    }
}

#[test]
fn free_username_is_stored_with_hash() {
    match signup_step(false, signup("alice", "pw")) {
        SignupStep::StoreUser { username, pwdhash } => {
            assert_eq!(username, "alice");
            assert_eq!(pwdhash, hash_password("pw"));
            assert_ne!(pwdhash, "pw");
        }
        other => panic!("unexpected {:?}", other),
    }
}

#[test]
fn failed_store_fails_signup() {
    assert!(matches!(signup_stored(false, "alice"), Reply::Failed(HandlerFailure::StoreUser)));
}

#[test]
fn stored_signup_issues_token() {
    match signup_stored(true, "alice") {
        Reply::Jwt(t) => assert_eq!(verify_decode_jwt(&t).unwrap().sub, "alice"),
        other => panic!("unexpected {:?}", other),
    }
}

#[test]
fn token_reply_passes_token_or_failure() {
    assert!(matches!(token_reply(Ok(String::from("t"))), Reply::Jwt(t) if t == "t"));
    assert!(matches!(
        token_reply(Err(AuthError::ClockBeforeEpoch)),
        Reply::Failed(HandlerFailure::IssueToken(AuthError::ClockBeforeEpoch))
    ));
}

#[test]
fn signup_then_login_succeeds() {
    let pwdhash = match signup_step(false, signup("dave", "s3cret")) {
        SignupStep::StoreUser { pwdhash, .. } => pwdhash,
        other => panic!("unexpected {:?}", other),
    };
    match login_reply(Some(pwdhash), &login("dave", "s3cret")) {
        Reply::Jwt(t) => assert_eq!(verify_decode_jwt(&t).unwrap().sub, "dave"),
        other => panic!("unexpected {:?}", other),
    }
}

#[test]
fn wrong_password_is_forbidden() {
    match login_reply(Some(hash_password("s3cret")), &login("dave", "guess")) {
        Reply::Forbidden(m) => assert_eq!(
            m,
            "The username and password you entered did not match our records. Please double-check and try again."
        ),
        other => panic!("unexpected {:?}", other),
    }
}

#[test]
fn unknown_user_is_forbidden() {
    assert!(matches!(login_reply(None, &login("nobody", "x")), Reply::Forbidden(m) if m == LOGIN_REFUSED));
}

#[test]
fn cookie_with_issued_token_signs_in() {
    let token = generate_jwt_at("erin", 42);
    assert_eq!(User::from_cookie(Some(&token)).unwrap(), User { username: String::from("erin") });
}

#[test]
fn missing_cookie_signs_no_one_in() {
    assert!(matches!(User::from_cookie(None), Err(AuthFailure::NoToken)));
}

#[test]
fn bad_cookie_signs_no_one_in() {
    assert!(matches!(User::from_cookie(Some("nonsense")), Err(AuthFailure::InvalidToken(_))));
}

#[test]
fn empty_tweet_is_not_stored() {
    let user = User { username: String::from("frank") };
    assert_eq!(tweet_to_store(PostTweetForm { body: String::new() }, user), None);
}

#[test]
fn tweet_is_stored_under_poster() {
    let user = User { username: String::from("frank") };
    let form = PostTweetForm { body: String::from("hello") };
    assert_eq!(tweet_to_store(form, user), Some(tweet("frank", "hello")));
}

#[test]
fn cookie_report_shows_value() {
    assert_eq!(cookie_report(Some("abc")), Some(String::from("cookie found: abc")));
    assert_eq!(cookie_report(None), None);
}

#[test]
fn all_rows_are_kept_in_order() {
    let rows = vec![Some(tweet("a", "3")), Some(tweet("b", "2")), Some(tweet("a", "1"))];
    assert_eq!(get_tweets(rows), Some(vec![tweet("a", "3"), tweet("b", "2"), tweet("a", "1")]));
    assert_eq!(get_tweets(vec![]), Some(vec![]));
}

#[test]
fn an_unreadable_row_fails_the_whole_list() {
    assert_eq!(get_tweets(vec![Some(tweet("a", "3")), None, Some(tweet("a", "1"))]), None);
    assert_eq!(get_tweets(vec![None]), None);
}

#[test]
fn new_visitor_gets_home_page() {
    assert_eq!(cwitter::api::root_page(None), cwitter::api::Page::Home);
    assert_eq!(cwitter::api::root_page(Some("not-a-token")), cwitter::api::Page::Home);
}

#[test]
fn returning_user_gets_dashboard() {
    let token = generate_jwt_at("gina", 1);
    assert_eq!(cwitter::api::root_page(Some(&token)), cwitter::api::Page::Dashboard);
}
