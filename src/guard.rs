use vstd::prelude::*;

use crate::models::User;
use crate::token::{accepted_at, signed_token, token_validation, validate_token_at};

verus! {

/// A request whose bearer token was valid and whose subject resolved to a user.
#[derive(Debug, Clone)]
pub struct AuthenticatedUser(pub User);

/// The two outcomes a client may see when the guard refuses a request.
#[derive(Debug, Clone, Copy, PartialEq, Eq, Structural)]
pub enum Deny {
    Unauthorized,
    InternalServerError,
}

/// Failure reported by the data store behind the user lookup.
#[derive(Debug, Clone)]
pub enum DbError {
    MongoError(String),
    SerializationError(String),
    NotFound,
    InvalidId,
}

/// The text that must open an Authorization header, case included.
pub open spec fn bearer_scheme() -> Seq<char> {
    seq!['B', 'e', 'a', 'r', 'e', 'r', ' ']
}

/// Unicode White_Space, the characters that char::is_whitespace accepts.
pub open spec fn is_white_space(c: char) -> bool {
    let u = c as u32;
    (0x09 <= u && u <= 0x0D) || u == 0x20 || u == 0x85 || u == 0xA0 || u == 0x1680 || (0x2000 <= u
        && u <= 0x200A) || u == 0x2028 || u == 0x2029 || u == 0x202F || u == 0x205F || u == 0x3000
}

/// `s` without its leading white space.
pub open spec fn trim_start(s: Seq<char>) -> Seq<char>
    decreases s.len(),
{
    if s.len() > 0 && is_white_space(s[0]) {
        trim_start(s.drop_first())
    } else {
        s
    }
}

/// `s` without its trailing white space.
pub open spec fn trim_end(s: Seq<char>) -> Seq<char>
    decreases s.len(),
{
    if s.len() > 0 && is_white_space(s.last()) {
        trim_end(s.drop_last())
    } else {
        s
    }
}

/// `s` without leading and trailing white space, as str::trim gives it.
pub open spec fn trimmed(s: Seq<char>) -> Seq<char> {
    trim_end(trim_start(s))
}

/// Relies on str::strip_prefix with a string pattern: `Some` of the rest
/// exactly when `s` starts with `prefix`.
#[verifier::external_body]
fn strip_prefix_of<'a>(s: &'a str, prefix: &str) -> (r: Option<&'a str>)
    ensures
        r is Some <==> prefix@.is_prefix_of(s@),
        r matches Some(rest) ==> rest@ == s@.subrange(prefix@.len() as int, s@.len() as int),
{
    s.strip_prefix(prefix)
}

/// Relies on str::trim: leading and trailing characters with the Unicode
/// White_Space property removed.
#[verifier::external_body]
fn trim_text(s: &str) -> (r: String)
    ensures
        r@ == trimmed(s@),
{
    s.trim().to_string()
}

/// The candidate token an Authorization header value carries, if it uses the
/// bearer scheme.
pub open spec fn bearer_part(header: Seq<char>) -> Option<Seq<char>> {
    if bearer_scheme().is_prefix_of(header) {
        Some(trimmed(header.subrange(bearer_scheme().len() as int, header.len() as int)))
    } else {
        None
    }
}

/// Extracts the trimmed token from an Authorization header value; `None`
/// when the header is absent or does not open with `Bearer `.
pub fn bearer_token(header: Option<&str>) -> (r: Option<String>)
    ensures
        header is None ==> r is None,
        header matches Some(h) ==> (r matches Some(t) ==> bearer_part(h@) == Some(t@)) && (r is None
            ==> bearer_part(h@) is None),
{
    match header {
        None => None,
        Some(h) => {
            let scheme = "Bearer ";
            proof {
                reveal_strlit("Bearer ");
                assert(scheme@ =~= bearer_scheme());
            }
            match strip_prefix_of(h, scheme) {
                Some(rest) => Some(trim_text(rest)),
                None => None,
            }
        },
    }
}

pub open spec fn header_view(header: Option<&str>) -> Option<Seq<char>> {
    match header {
        Some(h) => Some(h@),
        None => None,
    }
}

/// What the first half of the guard yields for an Authorization header
/// value: the subject of a bearer token that validates under `secret` at
/// `now`, else `Unauthorized`, whichever check failed.
pub open spec fn guard_subject(header: Option<Seq<char>>, secret: Seq<u8>, now: i64) -> Result<Seq<char>, Deny> {
    match header {
        None => Err(Deny::Unauthorized),
        Some(h) => match bearer_part(h) {
            None => Err(Deny::Unauthorized),
            Some(t) => match token_validation(secret, t, now) {
                Ok(c) => Ok(c.0),
                Err(_) => Err(Deny::Unauthorized),
            },
        },
    }
}

pub open spec fn subject_view(r: Result<String, Deny>) -> Result<Seq<char>, Deny> {
    match r {
        Ok(s) => Ok(s@),
        Err(d) => Err(d),
    }
}

/// First half of the guard: from the Authorization header to the subject
/// named by a valid, unexpired token, checked under `secret` at `now`.
/// Every failure here is `Unauthorized`.
pub fn subject_for_request(header: Option<&str>, secret: &[u8], now: i64) -> (r: Result<String, Deny>)
    ensures
        subject_view(r) == guard_subject(header_view(header), secret@, now),
        header matches Some(h) ==> forall|sub: Seq<char>, iat: i64, exp: i64|
            bearer_part(h@) == Some(#[trigger] signed_token(secret@, sub, iat, exp)) ==> (accepted_at(
                exp,
                now,
            ) ==> (r matches Ok(s) && s@ == sub)) && (!accepted_at(exp, now) ==> r is Err),
{
    match bearer_token(header) {
        None => Err(Deny::Unauthorized),
        Some(t) => match validate_token_at(secret, t.as_str(), now) {
            Ok(c) => Ok(c.sub),
            Err(_) => Err(Deny::Unauthorized),
        },
    }
}

/// Every way a bearer token can fail validation gives the client the same
/// refusal, so the response does not tell which check failed.
pub proof fn lemma_token_failures_indistinguishable(
    h1: Seq<char>,
    h2: Seq<char>,
    secret: Seq<u8>,
    now: i64,
)
    requires
        guard_subject(Some(h1), secret, now) is Err,
        guard_subject(Some(h2), secret, now) is Err,
    ensures
        guard_subject(Some(h1), secret, now) == guard_subject(Some(h2), secret, now),
{
}

/// Whether a lookup failure says only that no such user exists: the store
/// found nothing, or the subject is not a well-formed identifier.
pub open spec fn names_no_user(e: DbError) -> bool {
    e is NotFound || e is InvalidId
}

/// Second half of the guard: the outcome of looking the subject up.
/// A missing user is `Unauthorized`; a store failure is `InternalServerError`.
pub fn resolve_principal(lookup: Result<Option<User>, DbError>) -> (r: Result<AuthenticatedUser, Deny>)
    ensures
        lookup matches Ok(Some(u)) ==> (r matches Ok(p) && p.0 == u),
        lookup matches Ok(None) ==> r == Err::<AuthenticatedUser, Deny>(Deny::Unauthorized),
        lookup matches Err(e) ==> r == Err::<AuthenticatedUser, Deny>(
            if names_no_user(e) {
                Deny::Unauthorized
            } else {
                Deny::InternalServerError
            },
        ),
{
    match lookup {
        Ok(Some(u)) => Ok(AuthenticatedUser(u)),
        Ok(None) => Err(Deny::Unauthorized),
        Err(DbError::NotFound) => Err(Deny::Unauthorized),
        Err(DbError::InvalidId) => Err(Deny::Unauthorized),
        Err(_) => Err(Deny::InternalServerError),
    }
}

} // verus!
