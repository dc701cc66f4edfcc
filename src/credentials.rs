use vstd::prelude::*;
use vstd::string::*;

verus! {

/// Work factor handed to bcrypt when a new password hash is made.
pub const HASH_COST: u32 = 12;

/// What bcrypt's verification says of `password` against the stored `hash`:
/// `None` when the hash cannot be parsed, else whether the password matches.
pub uninterp spec fn bcrypt_verdict(password: Seq<u8>, hash: Seq<char>) -> Option<bool>;

/// Failure of the password hashing layer: a stored hash that cannot be read,
/// or an internal failure while hashing.
#[derive(Debug, Clone, Copy, PartialEq, Eq, Structural)]
pub enum HashingError {
    Failed,
}

/// Smallest and largest work factor that bcrypt accepts.
pub const MIN_HASH_COST: u32 = 4;
pub const MAX_HASH_COST: u32 = 31;

/// The bcrypt alphabet used for salt and digest.
pub open spec fn is_bcrypt_char(c: char) -> bool {
    c == '.' || c == '/' || ('A' <= c && c <= 'Z') || ('a' <= c && c <= 'z') || ('0' <= c && c <= '9')
}

/// A `$2b$` hash string at work factor `cost`: the tag, the cost in two
/// digits, then a 22-character salt and a 31-character digest.
pub open spec fn is_bcrypt_hash(h: Seq<char>, cost: u32) -> bool {
    &&& h.len() == 60
    &&& h[0] == '$' && h[1] == '2' && h[2] == 'b' && h[3] == '$'
    &&& h[4] as u32 == 48 + cost / 10 && h[5] as u32 == 48 + cost % 10
    &&& h[6] == '$'
    &&& forall|i: int| 7 <= i < 60 ==> is_bcrypt_char(#[trigger] h[i])
}

/// bcrypt can read `h`, whatever password it is checked against.
pub open spec fn readable_by_bcrypt(h: Seq<char>) -> bool {
    forall|q: Seq<u8>| #[trigger] bcrypt_verdict(q, h) is Some
}

/// Relies on bcrypt::hash: a fresh random salt, the given cost, and a hash
/// string in the `$2b$` format that bcrypt::verify reads for any password and
/// accepts for the same one; a cost outside 4..=31 is refused.
#[verifier::external_body]
fn bcrypt_hash(password: &[u8], cost: u32) -> (r: Option<String>)
    ensures
        r matches Some(h) ==> bcrypt_verdict(password@, h@) == Some(true),
        r matches Some(h) ==> is_bcrypt_hash(h@, cost),
        r matches Some(h) ==> readable_by_bcrypt(h@),
        cost < MIN_HASH_COST || cost > MAX_HASH_COST ==> r is None,
{
    bcrypt::hash(password, cost).ok()
}

/// Relies on bcrypt::verify: an error exactly when the hash string cannot be
/// parsed, else the outcome of the comparison.
#[verifier::external_body]
fn bcrypt_verify(password: &[u8], hash: &str) -> (r: Option<bool>)
    ensures
        r == bcrypt_verdict(password@, hash@),
{
    bcrypt::verify(password, hash).ok()
}

/// Turns a plaintext password into a salted bcrypt hash at the default cost.
pub fn hash_password(password: &str) -> (r: Result<String, HashingError>)
    ensures
        r matches Ok(h) ==> is_bcrypt_hash(h@, HASH_COST) && readable_by_bcrypt(h@),
        r matches Ok(h) ==> bcrypt_verdict(password.spec_bytes(), h@) == Some(true),
{
    hash_password_with_cost(password, HASH_COST)
}

/// Turns a plaintext password into a salted bcrypt hash at the given work
/// factor; a work factor outside the range bcrypt supports is an error.
pub fn hash_password_with_cost(password: &str, cost: u32) -> (r: Result<String, HashingError>)
    ensures
        r matches Ok(h) ==> is_bcrypt_hash(h@, cost) && readable_by_bcrypt(h@),
        r matches Ok(h) ==> bcrypt_verdict(password.spec_bytes(), h@) == Some(true),
        cost < MIN_HASH_COST || cost > MAX_HASH_COST ==> r == Err::<String, HashingError>(
            HashingError::Failed,
        ),
{
    match bcrypt_hash(password.as_bytes(), cost) {
        Some(h) => Ok(h),
        None => Err(HashingError::Failed),
    }
}

/// What checking `password` against `hash` yields: an error for a hash that
/// cannot be read, else whether the password matches.
pub open spec fn verify_outcome(password: Seq<u8>, hash: Seq<char>) -> Result<bool, HashingError> {
    match bcrypt_verdict(password, hash) {
        Some(b) => Ok(b),
        None => Err(HashingError::Failed),
    }
}

/// Checks a plaintext password against a stored hash. A hash that cannot be
/// read is an error, told apart from a wrong password.
pub fn verify_password(password: &str, hash: &str) -> (r: Result<bool, HashingError>)
    ensures
        r == verify_outcome(password.spec_bytes(), hash@),
{
    match bcrypt_verify(password.as_bytes(), hash) {
        Some(b) => Ok(b),
        None => Err(HashingError::Failed),
    }
}

/// A password checked against a hash that hashing it produced is accepted:
/// whatever `hash_password` returns in `Ok` for `password`, `verify_password`
/// answers `Ok(true)` on the pair.
pub proof fn lemma_hash_then_verify(password: Seq<u8>, hash: Seq<char>)
    requires
        bcrypt_verdict(password, hash) == Some(true),
    ensures
        verify_outcome(password, hash) == Ok::<bool, HashingError>(true),
{
}

} // verus!
