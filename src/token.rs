use vstd::prelude::*;

use crate::models::TokenClaims;
use jsonwebtoken::errors::ErrorKind;

verus! {

/// Lifetime of a session token, in seconds (24 hours).
pub const TOKEN_TTL_SECONDS: i64 = 86400;

/// Tolerance for clock skew when checking expiry, in seconds.
pub const CLOCK_SKEW_SECONDS: i64 = 0;

#[verifier::external_type_specification]
#[verifier::external_body]
pub struct ExJwtError(jsonwebtoken::errors::Error);

/// The compact HS256 token that jsonwebtoken::encode produces for the claims
/// `{sub, iat, exp}` under `secret`.
pub uninterp spec fn signed_token(secret: Seq<u8>, sub: Seq<char>, iat: i64, exp: i64) -> Seq<char>;

/// Why HS256 decoding under a secret turned a token down.
#[derive(Debug, Clone, Copy, PartialEq, Eq, Structural)]
pub enum DecodeFault {
    /// Not three decodable segments, or an unreadable header or payload.
    Malformed,
    /// The signature does not verify, or the header names another algorithm.
    SignatureFault,
    /// The signature verifies but the claims are not `{sub, iat, exp}`.
    UnreadableClaims,
}

/// What jsonwebtoken::decode, restricted to HS256 under `secret` with its own
/// claim checks off, makes of `token`: the claims, or why it refused.
pub uninterp spec fn hs256_outcome(secret: Seq<u8>, token: Seq<char>) -> Result<
    (Seq<char>, i64, i64),
    DecodeFault,
>;

/// Why a token was not accepted, or could not be made.
#[derive(Debug, Clone, Copy, PartialEq, Eq, Structural)]
pub enum TokenError {
    /// Not a decodable token, or its claims are not `{sub, iat, exp}`.
    MalformedToken,
    /// The signature does not verify under the secret, or names another algorithm.
    BadSignature,
    /// The signature verifies but the expiry instant has passed.
    Expired,
    /// Issuing at this instant would put the expiry past the last representable second.
    TimestampOverflow,
}

/// Number of `.` separators in `s`.
pub open spec fn dot_count(s: Seq<char>) -> nat
    decreases s.len(),
{
    if s.len() == 0 {
        0
    } else {
        dot_count(s.drop_last()) + if s.last() == '.' {
            1nat
        } else {
            0nat
        }
    }
}

/// The unpadded base64url alphabet.
pub open spec fn is_base64url_char(c: char) -> bool {
    ('A' <= c && c <= 'Z') || ('a' <= c && c <= 'z') || ('0' <= c && c <= '9') || c == '-' || c == '_'
}

/// base64url of the header `{"typ":"JWT","alg":"HS256"}`.
pub open spec fn hs256_header_segment() -> Seq<char> {
    seq![
        'e', 'y', 'J', '0', 'e', 'X', 'A', 'i', 'O', 'i', 'J', 'K', 'V', '1', 'Q', 'i', 'L', 'C',
        'J', 'h', 'b', 'G', 'c', 'i', 'O', 'i', 'J', 'I', 'U', 'z', 'I', '1', 'N', 'i', 'J', '9',
    ]
}

/// Three base64url segments joined by dots, the first being the HS256 header.
pub open spec fn is_compact_hs256(t: Seq<char>) -> bool {
    &&& (hs256_header_segment() + seq!['.']).is_prefix_of(t)
    &&& dot_count(t) == 2
    &&& forall|i: int| 0 <= i < t.len() ==> (t[i] == '.' || is_base64url_char(#[trigger] t[i]))
}

/// Relies on jsonwebtoken::encode with the default HS256 header and a key
/// made by EncodingKey::from_secret. The key family matches the header, and
/// a map of one string and two integers always serialises, so it succeeds;
/// the result is header, claims and HMAC signature, each in base64url.
#[verifier::external_body]
fn encode_claims(secret: &[u8], sub: &str, iat: i64, exp: i64) -> (r: Result<String, jsonwebtoken::errors::Error>)
    ensures
        r is Ok,
        r matches Ok(t) ==> t@ == signed_token(secret@, sub@, iat, exp) && is_compact_hs256(t@),
{
    let mut claims = bson::Document::new();
    claims.insert("sub", sub);
    claims.insert("iat", iat);
    claims.insert("exp", exp);
    let key = jsonwebtoken::EncodingKey::from_secret(secret);
    jsonwebtoken::encode(&jsonwebtoken::Header::default(), &claims, &key)
}

pub open spec fn decoded_view(r: Result<(String, i64, i64), DecodeFault>) -> Result<
    (Seq<char>, i64, i64),
    DecodeFault,
> {
    match r {
        Ok(c) => Ok((c.0@, c.1, c.2)),
        Err(e) => Err(e),
    }
}

#[verifier::external_type_specification]
#[verifier::external_body]
pub struct ExValidation(jsonwebtoken::Validation);

/// Relies on jsonwebtoken::Validation::new: accept HS256 alone, and check
/// the signature but no claim (expiry is checked by this library).
#[verifier::external_body]
fn hs256_signature_only() -> (r: jsonwebtoken::Validation) {
    let mut rules = jsonwebtoken::Validation::new(jsonwebtoken::Algorithm::HS256);
    (rules.validate_exp, rules.validate_aud) = (false, false);
    rules.required_spec_claims.clear();
    rules
}

/// Every token that `signed_token` names for `secret` and equal to `token`
/// decodes, in `r`, to the claims it was made from.
pub open spec fn decodes_own_tokens(r: Result<(String, i64, i64), DecodeFault>, secret: Seq<u8>, token: Seq<char>) -> bool {
    forall|sub: Seq<char>, iat: i64, exp: i64|
        #[trigger] signed_token(secret, sub, iat, exp) == token ==> decoded_view(r) == Ok::<
            (Seq<char>, i64, i64),
            DecodeFault,
        >((sub, iat, exp))
}

/// A token with fewer than two dots cannot be split into header, payload
/// and signature, and is refused in `r` as malformed.
pub open spec fn refuses_without_segments(r: Result<(String, i64, i64), DecodeFault>, token: Seq<char>) -> bool {
    dot_count(token) < 2 ==> r == Err::<(String, i64, i64), DecodeFault>(DecodeFault::Malformed)
}

/// Relies on jsonwebtoken::decode, restricted to HS256 under `secret`, with
/// its expiry, audience and required-claim checks switched off, and on its
/// ErrorKind to tell a signature or algorithm mismatch from other failures.
/// A token that jsonwebtoken::encode made under the same secret decodes to
/// its claims; a token with fewer than two dots is refused as invalid before
/// any signature check.
#[verifier::external_body]
fn decode_claims(secret: &[u8], token: &str) -> (r: Result<(String, i64, i64), DecodeFault>)
    ensures
        decoded_view(r) == hs256_outcome(secret@, token@),
        decodes_own_tokens(r, secret@, token@),
        refuses_without_segments(r, token@),
{
    let key = jsonwebtoken::DecodingKey::from_secret(secret);
    let d = match jsonwebtoken::decode::<bson::Document>(token, &key, &hs256_signature_only()) {
        Ok(t) => t.claims,
        Err(e) if matches!(e.kind(), ErrorKind::InvalidSignature | ErrorKind::InvalidAlgorithm) => return Err(DecodeFault::SignatureFault),
        Err(_) => return Err(DecodeFault::Malformed),
    };
    let number = |k: &str| d.get_i64(k).ok().or(d.get_i32(k).ok().map(i64::from));
    match (d.get_str("sub"), number("iat"), number("exp")) {
        (Ok(s), Some(i), Some(e)) => Ok((s.to_string(), i, e)),
        _ => Err(DecodeFault::UnreadableClaims),
    }
}

/// Relies on chrono::Utc::now: the current instant in whole seconds.
#[verifier::external_body]
fn now_seconds() -> (r: i64) {
    chrono::Utc::now().timestamp()
}

/// Whether a token expiring at `exp` is still accepted at `now`.
pub open spec fn accepted_at(exp: i64, now: i64) -> bool {
    now <= exp + CLOCK_SKEW_SECONDS
}

/// What validation at `now` yields for a token whose signature verifies and
/// whose claims are `(sub, iat, exp)`.
pub open spec fn validation_outcome(sub: Seq<char>, iat: i64, exp: i64, now: i64) -> Result<
    (Seq<char>, i64, i64),
    TokenError,
> {
    if accepted_at(exp, now) {
        Ok((sub, iat, exp))
    } else {
        Err(TokenError::Expired)
    }
}

/// What validation at `now` yields from the decoding outcome: a decoding
/// fault is reported before any claim is looked at, and the expiry is
/// checked only on claims whose signature verified.
pub open spec fn validation_of(decoded: Result<(Seq<char>, i64, i64), DecodeFault>, now: i64) -> Result<
    (Seq<char>, i64, i64),
    TokenError,
> {
    match decoded {
        Ok(c) => validation_outcome(c.0, c.1, c.2, now),
        Err(DecodeFault::SignatureFault) => Err(TokenError::BadSignature),
        Err(_) => Err(TokenError::MalformedToken),
    }
}

/// What validating `token` under `secret` at `now` yields.
pub open spec fn token_validation(secret: Seq<u8>, token: Seq<char>, now: i64) -> Result<
    (Seq<char>, i64, i64),
    TokenError,
> {
    validation_of(hs256_outcome(secret, token), now)
}

pub open spec fn claims_result_view(r: Result<TokenClaims, TokenError>) -> Result<
    (Seq<char>, i64, i64),
    TokenError,
> {
    match r {
        Ok(c) => Ok(c.view()),
        Err(e) => Err(e),
    }
}

/// Issues a token for `user_id` at the instant `now`, expiring a day later.
pub fn issue_token_at(secret: &[u8], user_id: &str, now: i64) -> (r: Result<String, TokenError>)
    ensures
        now > i64::MAX - TOKEN_TTL_SECONDS ==> r == Err::<String, TokenError>(TokenError::TimestampOverflow),
        now <= i64::MAX - TOKEN_TTL_SECONDS ==> (r matches Ok(t) && t@ == signed_token(
            secret@,
            user_id@,
            now,
            (now + TOKEN_TTL_SECONDS) as i64,
        ) && is_compact_hs256(t@)),
{
    if now > i64::MAX - TOKEN_TTL_SECONDS {
        return Err(TokenError::TimestampOverflow);
    }
    let exp: i64 = now + TOKEN_TTL_SECONDS;
    Ok(encode_claims(secret, user_id, now, exp).unwrap())
}

/// Issues a token for `user_id` at the current instant, expiring a day later.
pub fn generate_token(secret: &[u8], user_id: &str) -> (r: Result<String, TokenError>)
    ensures
        r matches Ok(t) ==> exists|now: i64|
            t@ == #[trigger] signed_token(secret@, user_id@, now, (now + TOKEN_TTL_SECONDS) as i64),
        r matches Ok(t) ==> is_compact_hs256(t@),
        r is Err ==> r == Err::<String, TokenError>(TokenError::TimestampOverflow),
{
    let now = now_seconds();
    issue_token_at(secret, user_id, now)
}

/// Validates `token` under `secret` at the instant `now`: the signature and
/// algorithm are checked first, then the shape of the claims, then the
/// expiry against `now`.
pub fn validate_token_at(secret: &[u8], token: &str, now: i64) -> (r: Result<TokenClaims, TokenError>)
    ensures
        claims_result_view(r) == token_validation(secret@, token@, now),
        forall|sub: Seq<char>, iat: i64, exp: i64|
            #[trigger] signed_token(secret@, sub, iat, exp) == token@
                ==> claims_result_view(r) == validation_outcome(sub, iat, exp, now),
        dot_count(token@) < 2 ==> r == Err::<TokenClaims, TokenError>(TokenError::MalformedToken),
{
    match decode_claims(secret, token) {
        Ok(c) => {
            let (sub, iat, exp) = c;
            if (now as i128) <= (exp as i128) + (CLOCK_SKEW_SECONDS as i128) {
                Ok(TokenClaims { sub, iat, exp })
            } else {
                Err(TokenError::Expired)
            }
        },
        Err(DecodeFault::SignatureFault) => Err(TokenError::BadSignature),
        Err(_) => Err(TokenError::MalformedToken),
    }
}

/// Validates `token` under `secret` at the current instant.
pub fn validate_token(secret: &[u8], token: &str) -> (r: Result<TokenClaims, TokenError>)
    ensures
        exists|now: i64| claims_result_view(r) == #[trigger] token_validation(secret@, token@, now),
        forall|sub: Seq<char>, iat: i64, exp: i64|
            #[trigger] signed_token(secret@, sub, iat, exp) == token@ ==> (r matches Ok(c) ==> c.view()
                == (sub, iat, exp)) && (r is Err ==> r == Err::<TokenClaims, TokenError>(
                TokenError::Expired,
            )),
        dot_count(token@) < 2 ==> r == Err::<TokenClaims, TokenError>(TokenError::MalformedToken),
{
    let now = now_seconds();
    validate_token_at(secret, token, now)
}

/// A token issued for `sub` at `now` validates, at that same instant, to
/// claims naming `sub`, issued at `now` and expiring a day later.
pub proof fn lemma_issue_then_validate(sub: Seq<char>, now: i64)
    requires
        now <= i64::MAX - TOKEN_TTL_SECONDS,
    ensures
        validation_outcome(sub, now, (now + TOKEN_TTL_SECONDS) as i64, now) == Ok::<
            (Seq<char>, i64, i64),
            TokenError,
        >((sub, now, (now + TOKEN_TTL_SECONDS) as i64)),
{
}

/// A token whose signature verifies, checked after its expiry instant, fails
/// as expired, never as a bad signature.
pub proof fn lemma_expired_not_bad_signature(sub: Seq<char>, iat: i64, exp: i64, now: i64)
    requires
        now > exp + CLOCK_SKEW_SECONDS,
    ensures
        validation_outcome(sub, iat, exp, now) == Err::<(Seq<char>, i64, i64), TokenError>(
            TokenError::Expired,
        ),
        validation_of(Ok((sub, iat, exp)), now) == Err::<(Seq<char>, i64, i64), TokenError>(
            TokenError::Expired,
        ),
{
}

/// A token whose signature does not verify is refused as a bad signature,
/// whatever its expiry says and whenever it is checked.
pub proof fn lemma_signature_checked_first(now: i64)
    ensures
        validation_of(Err(DecodeFault::SignatureFault), now) == Err::<(Seq<char>, i64, i64), TokenError>(
            TokenError::BadSignature,
        ),
{
}

} // verus!
