//! Password storage with bcrypt: hashing at registration, checking at login.
use vstd::prelude::*;
use vstd::string::StringSliceAdditionalSpecFns;

verus! {

#[verifier::external_type_specification]
#[verifier::external_body]
pub struct ExBcryptError(bcrypt::BcryptError);

/// What `bcrypt::verify(password, hash)` returns, with its error mapped to
/// `None`: `Some(true)` when `hash` is a well-formed bcrypt hash of
/// `password`, `Some(false)` when it is well-formed but of another password.
pub uninterp spec fn bcrypt_verify_result(password: Seq<char>, hash: Seq<char>) -> Option<bool>;

/// The first seven characters of every hash made at bcrypt's default cost
/// (12): `$2b$12$`.
pub open spec fn bcrypt_cost_prefix() -> Seq<char> {
    seq!['$', '2', 'b', '$', '1', '2', '$']
}

/// `hash` is a stored form of `password`: a 60-character bcrypt string of
/// version 2b at the default cost that bcrypt accepts for `password`.
pub open spec fn is_bcrypt_hash_of(password: Seq<char>, hash: Seq<char>) -> bool {
    &&& hash.len() == 60
    &&& hash.take(7) == bcrypt_cost_prefix()
    &&& bcrypt_verify_result(password, hash) == Some(true)
}

/// `password` is accepted against the stored `hash`.
pub open spec fn password_accepted(password: Seq<char>, hash: Seq<char>) -> bool {
    bcrypt_verify_result(password, hash) == Some(true)
}

/// Calls `bcrypt::hash(password, bcrypt::DEFAULT_COST)`; bcrypt sets that
/// cost to 12. The salt is drawn from the operating system, so nothing fixes
/// which hash comes back. In bcrypt's implementation an error comes only from
/// the random source; a hash is `$2b$12$` then 53 base64 characters (60 in
/// all), and `bcrypt::verify` accepts it for `password` (it re-hashes with
/// the salt and cost read back from the string).
#[verifier::external_body]
fn bcrypt_hash_default_cost(password: &str) -> (r: Result<String, bcrypt::BcryptError>)
    ensures
        r matches Ok(h) ==> {
            &&& h@.len() == 60
            &&& h@.take(7) == bcrypt_cost_prefix()
            &&& bcrypt_verify_result(password@, h@) == Some(true)
        },
{
    bcrypt::hash(password, bcrypt::DEFAULT_COST)
}

/// Calls `bcrypt::verify(password, hash)`; its result is named by
/// `bcrypt_verify_result`. bcrypt's implementation rejects, as an error, any
/// `hash` that is not exactly 60 bytes long.
#[verifier::external_body]
fn bcrypt_verify(password: &str, hash: &str) -> (r: Result<bool, bcrypt::BcryptError>)
    ensures
        match r {
            Ok(b) => bcrypt_verify_result(password@, hash@) == Some(b),
            Err(_) => bcrypt_verify_result(password@, hash@) is None,
        },
        hash.spec_bytes().len() != 60 ==> r is Err,
{
    bcrypt::verify(password, hash)
}

/// Why a password could not be hashed.
#[derive(Debug, PartialEq, Eq, Structural)]
pub enum PasswordError {
    /// bcrypt failed (in practice: the system random source was unavailable).
    HashingFailed,
}

/// Hashes a password for storage with bcrypt at its default cost.
pub fn hashpassword(pw: &str) -> (r: Result<String, PasswordError>)
    ensures
        r matches Ok(h) ==> is_bcrypt_hash_of(pw@, h@),
        r matches Err(e) ==> e == PasswordError::HashingFailed,
{
    match bcrypt_hash_default_cost(pw) {
        Ok(h) => Ok(h),
        Err(_) => Err(PasswordError::HashingFailed),
    }
}

/// Checks a password against a stored hash; a malformed hash never matches.
pub fn verify_password(pw: &str, hash: &str) -> (ok: bool)
    ensures
        ok == password_accepted(pw@, hash@),
        hash.spec_bytes().len() != 60 ==> !ok,
{
    match bcrypt_verify(pw, hash) {
        Ok(b) => b,
        Err(_) => false,
    }
}

/// A password that was hashed for storage is accepted when it is checked
/// against that stored hash.
pub proof fn lemma_stored_hash_accepts_password(password: Seq<char>, hash: Seq<char>)
    requires
        is_bcrypt_hash_of(password, hash),
    ensures
        password_accepted(password, hash),
{
}

} // verus!
