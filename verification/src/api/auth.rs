//! Login tokens (HS256 JSON Web Tokens) and password hashes.
//!
//! The user name is the user's identity: a token carries it in its `sub` claim.
use vstd::prelude::*;

use jsonwebtoken::Algorithm;

verus! {

/// The key that signs login tokens.
pub const JWT_SECRET: &'static str = "NEVER-STORE-SECRETS-IN-CODE";

/// The key under which passwords are hashed (kept apart from the token key, so that
/// no stored hash can serve as a token signature).
pub const PASSWORD_KEY: &'static str = "NEVER-STORE-PASSWORD-KEYS-IN-CODE";

#[verifier::external_type_specification]
#[verifier::external_body]
pub struct ExJwtError(jsonwebtoken::errors::Error);

#[verifier::external_type_specification]
#[verifier::external_body]
pub struct ExSystemTime(std::time::SystemTime);

/// The signing algorithms that a token header can name.
#[derive(Debug, Clone, Copy, PartialEq, Eq, Structural)]
pub enum JwtAlgorithm {
    HS256,
    HS384,
    HS512,
    ES256,
    ES384,
    RS256,
    RS384,
    RS512,
    PS256,
    PS384,
    PS512,
}

/// The position of the last `.` in `s`, if it has one.
pub open spec fn last_dot(s: Seq<char>) -> Option<int>
    decreases s.len(),
{
    if s.len() == 0 {
        None
    } else if s.last() == '.' {
        Some(s.len() - 1)
    } else {
        last_dot(s.drop_last())
    }
}

/// A token cut at its last `.` into the signed message and the signature, when the
/// message itself holds a `.` (between the header and the claims).
pub open spec fn dot_split(token: Seq<char>) -> Option<(Seq<char>, Seq<char>)> {
    match last_dot(token) {
        Some(k) => match last_dot(token.take(k)) {
            Some(_) => Some((token.take(k), token.skip(k + 1))),
            None => None,
        },
        None => None,
    }
}

/// The token that `jsonwebtoken::encode` (7.2) produces for the default header
/// (`typ` "JWT", `alg` HS256), the claims object `{"sub": sub, "iat": iat}` (in that
/// order) and the HMAC key `secret`.
pub uninterp spec fn hs256_jwt(secret: Seq<char>, sub: Seq<char>, iat: u64) -> Seq<char>;

/// The algorithm that `jsonwebtoken::decode_header` (7.2) reads from `token`'s header,
/// or `None` when it refuses the token.
pub uninterp spec fn jwt_header_algorithm(token: Seq<char>) -> Option<JwtAlgorithm>;

/// What `jsonwebtoken::dangerous_insecure_decode` (7.2) makes of `token`, decoding
/// the claims into a JSON object without checking the signature: `None` when it
/// refuses the token, else the object's `sub` when it is a string and its `iat` when
/// it is an unsigned integer.
pub uninterp spec fn jwt_unverified_claims(token: Seq<char>) -> Option<
    (Option<Seq<char>>, Option<u64>),
>;

/// The signature that `jsonwebtoken::crypto::sign` (7.2) computes for `message`
/// with HS256 and the key `secret` (base64url of the HMAC-SHA256 digest).
pub uninterp spec fn hs256_signature(secret: Seq<char>, message: Seq<char>) -> Seq<char>;

pub open spec fn opt_view(s: Option<String>) -> Option<Seq<char>> {
    match s {
        Some(t) => Some(t@),
        None => None,
    }
}

/// Calls `jsonwebtoken::encode` with `Header::default()`, the claims object
/// `{"sub": sub, "iat": iat}` and `EncodingKey::from_secret(secret)`.
/// Claims: the result is `Ok` and is the token named by `hs256_jwt`. In 7.2 the
/// HS256 path of `encode` has no error: the key family matches the default header,
/// the header and a JSON object with string keys always serialize, and
/// `crypto::sign` for HS256 always returns `Ok`.
#[verifier::external_body]
fn encode_hs256(secret: &str, sub: &str, iat: u64) -> (r: Result<String, jsonwebtoken::errors::Error>)
    ensures
        r is Ok && r->Ok_0@ == hs256_jwt(secret@, sub@, iat),
{
    let mut claims = serde_json::Map::new();
    claims.insert(String::from("sub"), serde_json::Value::from(sub));
    claims.insert(String::from("iat"), serde_json::Value::from(iat));
    let key = jsonwebtoken::EncodingKey::from_secret(secret.as_bytes());
    jsonwebtoken::encode(&jsonwebtoken::Header::default(), &claims, &key)
}

/// Calls `jsonwebtoken::decode_header(token)` and gives the header's `alg`.
/// Claims: `Ok` and `Err` follow `jwt_header_algorithm`; `Ok` only for a token with
/// a `.` whose part before it holds another `.` (7.2 splits at the last `.` twice
/// and refuses the token otherwise); and a token that `encode_hs256` made has the
/// default header, whose algorithm is HS256. It reads no clock.
#[verifier::external_body]
fn header_algorithm(token: &str) -> (r: Result<JwtAlgorithm, jsonwebtoken::errors::Error>)
    ensures
        r is Ok ==> jwt_header_algorithm(token@) == Some(r->Ok_0),
        dot_split(token@) is None ==> r is Err,
        r is Err ==> jwt_header_algorithm(token@) is None,
        forall|secret: Seq<char>, sub: Seq<char>, iat: u64|
            token@ == #[trigger] hs256_jwt(secret, sub, iat) ==> (r is Ok && r->Ok_0
                == JwtAlgorithm::HS256),
{
    Ok(match jsonwebtoken::decode_header(token)?.alg {
        Algorithm::HS256 => JwtAlgorithm::HS256,
        Algorithm::HS384 => JwtAlgorithm::HS384,
        Algorithm::HS512 => JwtAlgorithm::HS512,
        Algorithm::ES256 => JwtAlgorithm::ES256,
        Algorithm::ES384 => JwtAlgorithm::ES384,
        Algorithm::RS256 => JwtAlgorithm::RS256,
        Algorithm::RS384 => JwtAlgorithm::RS384,
        Algorithm::RS512 => JwtAlgorithm::RS512,
        Algorithm::PS256 => JwtAlgorithm::PS256,
        Algorithm::PS384 => JwtAlgorithm::PS384,
        Algorithm::PS512 => JwtAlgorithm::PS512,
    })
}

/// Calls `jsonwebtoken::dangerous_insecure_decode` on `token`, decoding the claims
/// into a JSON object, and picks its `sub` (as a string) and `iat` (as a `u64`).
/// Claims: `Ok` and `Err` follow `jwt_unverified_claims`; and a token that
/// `encode_hs256` made decodes to the `sub` and `iat` it was made from (7.2 parses
/// the header and the JSON claims back). It checks no signature and reads no clock.
#[verifier::external_body]
fn unverified_claims(token: &str) -> (r: Result<
    (Option<String>, Option<u64>),
    jsonwebtoken::errors::Error,
>)
    ensures
        r is Ok ==> jwt_unverified_claims(token@) == Some((opt_view(r->Ok_0.0), r->Ok_0.1)),
        r is Err ==> jwt_unverified_claims(token@) is None,
        forall|secret: Seq<char>, sub: Seq<char>, iat: u64|
            token@ == #[trigger] hs256_jwt(secret, sub, iat) ==> (r is Ok && opt_view(r->Ok_0.0)
                == Some(sub) && r->Ok_0.1 == Some(iat)),
{
    let data = jsonwebtoken::dangerous_insecure_decode::<serde_json::Map<String, serde_json::Value>>(token)?;
    let sub = data.claims.get("sub").and_then(|v| v.as_str()).map(String::from);
    Ok((sub, data.claims.get("iat").and_then(|v| v.as_u64())))
}

/// Calls `jsonwebtoken::crypto::sign(message, &EncodingKey::from_secret(secret), Algorithm::HS256)`.
/// Claims: the result is `Ok` and is the signature named by `hs256_signature`
/// (in 7.2 the HS256 branch of `sign` always returns `Ok`).
#[verifier::external_body]
fn sign_hs256(secret: &str, message: &str) -> (r: Result<String, jsonwebtoken::errors::Error>)
    ensures
        r is Ok && r->Ok_0@ == hs256_signature(secret@, message@),
{
    let key = jsonwebtoken::EncodingKey::from_secret(secret.as_bytes());
    jsonwebtoken::crypto::sign(message, &key, Algorithm::HS256)
}

/// Calls `jsonwebtoken::crypto::verify(signature, message, &DecodingKey::from_secret(secret), Algorithm::HS256)`.
/// Claims: the result is `Ok(b)` with `b` true exactly when `signature` is the HS256
/// signature of `message` under `secret` (in 7.2 it re-signs `message` with `sign`
/// and compares the two strings in constant time); so the two parts of a token that
/// `encode_hs256` made with `secret`, cut at its last `.`, check (7.2 `encode` joins
/// the message and `sign` of it with a `.`, and base64url text holds no `.`).
#[verifier::external_body]
fn verify_hs256(secret: &str, signature: &str, message: &str) -> (r: Result<bool, jsonwebtoken::errors::Error>)
    ensures
        r is Ok && r->Ok_0 == (signature@ == hs256_signature(secret@, message@)),
        forall|sub: Seq<char>, iat: u64|
            dot_split(#[trigger] hs256_jwt(secret@, sub, iat)) == Some((message@, signature@))
                ==> (r is Ok && r->Ok_0),
{
    let key = jsonwebtoken::DecodingKey::from_secret(secret.as_bytes());
    jsonwebtoken::crypto::verify(signature, message, &key, Algorithm::HS256)
}

/// Calls `std::time::SystemTime::now`. Nothing is claimed of the time it reads.
#[verifier::external_body]
fn system_time_now() -> std::time::SystemTime {
    std::time::SystemTime::now()
}

/// Calls `SystemTime::duration_since(UNIX_EPOCH)` on `t`, keeping `None` for a time
/// before the epoch. Nothing is claimed of the duration.
#[verifier::external_body]
fn duration_since_epoch(t: &std::time::SystemTime) -> Option<core::time::Duration> {
    t.duration_since(std::time::UNIX_EPOCH).ok()
}

/// Calls `Duration::as_secs`. Nothing is claimed of the count.
#[verifier::external_body]
fn duration_secs(d: &core::time::Duration) -> u64 {
    d.as_secs()
}

/// What a login token says: whom it was issued to and when.
#[derive(Debug, PartialEq, Eq)]
pub struct Claims {
    /// The subject: the user name.
    pub sub: String,
    /// Issued at, in seconds since the Unix epoch.
    pub iat: u64,
}

/// Why a token could not be issued or accepted.
#[derive(Debug)]
pub enum AuthError {
    /// The system clock reads a time before the Unix epoch.
    ClockBeforeEpoch,
    /// `jsonwebtoken` refused the token's shape, header or claims.
    Token(jsonwebtoken::errors::Error),
    /// The header names an algorithm other than HS256.
    WrongAlgorithm,
    /// The signature is not the one the secret gives for the header and claims.
    BadSignature,
    /// The token is genuine but its claims lack a string `sub` or an unsigned `iat`.
    MissingClaims,
}

/// The login token issued to `username` at time `iat`.
pub open spec fn issued_token(username: Seq<char>, iat: u64) -> Seq<char> {
    hs256_jwt(JWT_SECRET@, username, iat)
}

/// Whether `token` was issued to `username` at some time.
pub open spec fn issued_to(token: Seq<char>, username: Seq<char>) -> bool {
    exists|iat: u64| token == #[trigger] issued_token(username, iat)
}

/// Whether `token`'s last part is the signature that `secret` gives for the rest.
pub open spec fn signed_with(secret: Seq<char>, token: Seq<char>) -> bool {
    match dot_split(token) {
        Some((message, signature)) => signature == hs256_signature(secret, message),
        None => false,
    }
}

/// Whether `token` ends in a signature made with `JWT_SECRET` over all that comes
/// before its last `.`.
pub open spec fn signed_by_server(token: Seq<char>) -> bool {
    exists|message: Seq<char>|
        token == message + seq!['.'] + #[trigger] hs256_signature(JWT_SECRET@, message)
}

/// The claims of a token that is accepted: its header names HS256, it is signed
/// with `JWT_SECRET`, and it carries both claims.
pub open spec fn token_claims(token: Seq<char>) -> Option<(Seq<char>, u64)> {
    if jwt_header_algorithm(token) == Some(JwtAlgorithm::HS256) && signed_with(JWT_SECRET@, token) {
        match jwt_unverified_claims(token) {
            Some((Some(sub), Some(iat))) => Some((sub, iat)),
            _ => None,
        }
    } else {
        None
    }
}

/// The stored hash of `password`.
pub open spec fn password_hash_of(password: Seq<char>) -> Seq<char> {
    hs256_signature(PASSWORD_KEY@, password)
}

/// Whether `pwdhash` is the stored hash of `password`.
pub open spec fn password_matches(pwdhash: Seq<char>, password: Seq<char>) -> bool {
    pwdhash == password_hash_of(password)
}

/// Cutting at the last `.` gives back the token: message, `.`, signature.
pub proof fn lemma_dot_split_rejoins(token: Seq<char>)
    requires
        dot_split(token) is Some,
    ensures
        token == dot_split(token)->Some_0.0 + seq!['.'] + dot_split(token)->Some_0.1,
{
    lemma_last_dot_is_dot(token);
    let k = last_dot(token)->Some_0;
    assert(token =~= token.take(k) + seq!['.'] + token.skip(k + 1));
}

proof fn lemma_last_dot_is_dot(s: Seq<char>)
    ensures
        last_dot(s) matches Some(k) ==> 0 <= k < s.len() && s[k] == '.',
    decreases s.len(),
{
    if s.len() > 0 && s.last() != '.' {
        lemma_last_dot_is_dot(s.drop_last());
    }
}

/// The position of the last `.` among the first `end` characters.
fn find_last_dot(chars: &Vec<char>, end: usize) -> (r: Option<usize>)
    requires
        end <= chars@.len(),
    ensures
        match r {
            Some(k) => last_dot(chars@.take(end as int)) == Some(k as int),
            None => last_dot(chars@.take(end as int)) is None,
        },
{
    let mut i = end;
    while i > 0
        invariant
            i <= end <= chars@.len(),
            last_dot(chars@.take(end as int)) == last_dot(chars@.take(i as int)),
        decreases i,
    {
        assert(chars@.take(i as int).drop_last() =~= chars@.take(i - 1));
        if chars[i - 1] == '.' {
            return Some(i - 1);
        }
        i = i - 1;
    }
    None
}

/// Cuts a token at its last `.` into the signed message and the signature.
fn split_signature<'a>(token: &'a str) -> (r: Option<(&'a str, &'a str)>)
    ensures
        match dot_split(token@) {
            Some((message, signature)) => r is Some && r->Some_0.0@ == message && r->Some_0.1@
                == signature,
            None => r is None,
        },
{
    let mut chars: Vec<char> = Vec::new();
    for c in it: token.chars()
        invariant
            it.seq() == token@,
            chars@ == token@.take(it.index() as int),
    {
        assert(token@.take(it.index() + 1) =~= token@.take(it.index() as int).push(c));
        chars.push(c);
    }
    assert(chars@ =~= token@);
    let n = chars.len();
    match find_last_dot(&chars, n) {
        None => {
            assert(chars@.take(n as int) =~= token@);
            None
        },
        Some(k) => {
            assert(chars@.take(n as int) =~= token@);
            proof {
                lemma_last_dot_is_dot(token@);
            }
            assert(chars@.take(k as int) =~= token@.take(k as int));
            match find_last_dot(&chars, k) {
                None => None,
                Some(_) => {
                    let message = token.substring_char(0, k);
                    let signature = token.substring_char(k + 1, n);
                    assert(message@ =~= token@.take(k as int));
                    assert(signature@ =~= token@.skip(k + 1));
                    Some((message, signature))
                },
            }
        },
    }
}

/// The login token for `username`, issued at `iat` seconds since the epoch.
pub fn generate_jwt_at(username: &str, iat: u64) -> (token: String)
    ensures
        token@ == issued_token(username@, iat),
{
    match encode_hs256(JWT_SECRET, username, iat) {
        Ok(token) => token,
        Err(_) => {
            assert(false);
            String::new()
        },
    }
}

/// Returns a login token for `username`, issued now.
///
/// Does no authorisation, just creation, that `verify_decode_jwt` can later check
/// was not tampered with.
pub fn generate_jwt(username: &str) -> (r: Result<String, AuthError>)
    ensures
        match r {
            Ok(token) => issued_to(token@, username@),
            Err(e) => e is ClockBeforeEpoch,
        },
{
    let now = system_time_now();
    match duration_since_epoch(&now) {
        Some(d) => {
            let iat = duration_secs(&d);
            Ok(generate_jwt_at(username, iat))
        },
        None => Err(AuthError::ClockBeforeEpoch),
    }
}

/// Checks a login token and returns its claims.
///
/// A token is accepted only when its header names HS256, its last part is the
/// signature that `JWT_SECRET` gives for the rest, and it carries both claims; so an
/// accepted token was signed with the secret. A token issued by `generate_jwt_at`
/// (or `generate_jwt`) comes back with the user name and time it was issued with.
/// No clock is read.
pub fn verify_decode_jwt(jwt: &str) -> (r: Result<Claims, AuthError>)
    ensures
        match r {
            Ok(c) => token_claims(jwt@) == Some((c.sub@, c.iat)),
            Err(AuthError::Token(_)) => jwt_header_algorithm(jwt@) is None || (jwt_header_algorithm(
                jwt@,
            ) == Some(JwtAlgorithm::HS256) && signed_with(JWT_SECRET@, jwt@)
                && jwt_unverified_claims(jwt@) is None),
            Err(AuthError::WrongAlgorithm) => jwt_header_algorithm(jwt@) matches Some(a) && a
                != JwtAlgorithm::HS256,
            Err(AuthError::BadSignature) => jwt_header_algorithm(jwt@) == Some(JwtAlgorithm::HS256)
                && !signed_with(JWT_SECRET@, jwt@),
            Err(AuthError::MissingClaims) => jwt_header_algorithm(jwt@) == Some(JwtAlgorithm::HS256)
                && signed_with(JWT_SECRET@, jwt@) && jwt_unverified_claims(jwt@) is Some
                && token_claims(jwt@) is None,
            Err(AuthError::ClockBeforeEpoch) => false,
        },
        r is Ok ==> signed_by_server(jwt@),
        dot_split(jwt@) is None ==> r is Err,
        forall|sub: Seq<char>, iat: u64|
            jwt@ == #[trigger] issued_token(sub, iat) ==> (r matches Ok(c) && c.sub@ == sub && c.iat
                == iat),
{
    let alg = match header_algorithm(jwt) {
        Ok(a) => a,
        Err(e) => return Err(AuthError::Token(e)),
    };
    match alg {
        JwtAlgorithm::HS256 => {},
        _ => return Err(AuthError::WrongAlgorithm),
    }
    let (message, signature) = match split_signature(jwt) {
        Some(parts) => parts,
        None => {
            assert(false);
            return Err(AuthError::WrongAlgorithm);
        },
    };
    proof {
        lemma_dot_split_rejoins(jwt@);
    }
    let signed = match verify_hs256(JWT_SECRET, signature, message) {
        Ok(b) => b,
        Err(_) => {
            assert(false);
            false
        },
    };
    if !signed {
        return Err(AuthError::BadSignature);
    }
    assert(jwt@ == message@ + seq!['.'] + hs256_signature(JWT_SECRET@, message@));
    match unverified_claims(jwt) {
        Ok((Some(sub), Some(iat))) => Ok(Claims { sub, iat }),
        Ok(_) => Err(AuthError::MissingClaims),
        Err(e) => Err(AuthError::Token(e)),
    }
}

/// The hash under which a password is stored.
pub fn hash_password(password: &str) -> (pwdhash: String)
    ensures
        pwdhash@ == password_hash_of(password@),
        pwdhash@ == hs256_signature(PASSWORD_KEY@, password@),
{
    match sign_hs256(PASSWORD_KEY, password) {
        Ok(h) => h,
        Err(_) => {
            assert(false);
            String::new()
        },
    }
}

/// Whether `password` is the password whose stored hash is `pwdhash`
/// (compared in constant time).
pub fn verify_pwdhash(pwdhash: &str, password: &str) -> (ok: bool)
    ensures
        ok == password_matches(pwdhash@, password@),
        ok == (pwdhash@ == hs256_signature(PASSWORD_KEY@, password@)),
{
    match verify_hs256(PASSWORD_KEY, pwdhash, password) {
        Ok(b) => b,
        Err(_) => {
            assert(false);
            false
        },
    }
}

/// A password's stored hash is the HS256 signature, under `PASSWORD_KEY`, of the whole
/// password (every character of it), and a hash matches a password exactly when it
/// is that signature.
pub proof fn lemma_password_hash_covers_whole_password(password: Seq<char>, pwdhash: Seq<char>)
    ensures
        password_hash_of(password) == hs256_signature(PASSWORD_KEY@, password),
        password_matches(pwdhash, password) <==> pwdhash == hs256_signature(PASSWORD_KEY@, password),
{
}

/// A password checks against the hash that `hash_password` stored for it.
pub proof fn lemma_hashed_password_matches(password: Seq<char>)
    ensures
        password_matches(password_hash_of(password), password),
{
}

} // verus!
