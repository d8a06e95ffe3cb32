//! Argon2 password hashing, as provided by the `argon2` crate.
use argon2::password_hash::{Salt, SaltString};
use argon2::{Argon2, PasswordHash, PasswordHasher, PasswordVerifier};
use vstd::prelude::*;

verus! {

/// The error type of the `password-hash` API that `argon2` implements.
#[verifier::external_type_specification]
#[verifier::external_body]
pub struct ExPasswordHashError(argon2::password_hash::Error);

/// Whether `argon2::PasswordHash::new` accepts `hash` as a string in PHC format.
pub uninterp spec fn phc_parses(hash: Seq<char>) -> bool;

/// Whether `Argon2::default().verify_password` accepts `password` against the
/// parsed PHC string `hash`: it hashes `password` again with the algorithm,
/// version, parameters and salt written in `hash` and compares the outputs.
pub uninterp spec fn argon2_verifies(hash: Seq<char>, password: Seq<u8>) -> bool;

/// `hash` is a PHC string under which `password` verifies.
pub open spec fn hash_admits(hash: Seq<char>, password: Seq<u8>) -> bool {
    phc_parses(hash) && argon2_verifies(hash, password)
}

/// Parses `hash` with `argon2::PasswordHash::new` and, when that succeeds,
/// checks `password` against it with `Argon2::default().verify_password`.
/// Claimed: the parse fails exactly where `phc_parses` is false, and the check
/// succeeds exactly where `argon2_verifies` is true; any error of
/// `verify_password` counts as a failed check. Not claimed: that the work the
/// parameters in `hash` ask for fits in memory.
#[verifier::external_body]
pub(crate) fn argon2_check(hash: &str, password: &[u8]) -> (r: Result<bool, argon2::password_hash::Error>)
    ensures
        r is Ok <==> phc_parses(hash@),
        r matches Ok(ok) ==> ok == argon2_verifies(hash@, password@),
{
    let parsed = PasswordHash::new(hash)?;
    Ok(Argon2::default().verify_password(password, &parsed).is_ok())
}

/// A character of the B64 alphabet (standard Base64, no padding) that PHC strings use.
pub open spec fn is_b64_char(c: char) -> bool {
    ('A' <= c && c <= 'Z') || ('a' <= c && c <= 'z') || ('0' <= c && c <= '9') || c == '+' || c == '/'
}

/// The B64 text of 16 bytes without padding, as `SaltString::generate` writes
/// it: 22 characters of the alphabet, the last of which carries only two bits
/// of data and so is one of `A`, `Q`, `g`, `w`.
pub open spec fn is_generated_salt(salt: Seq<char>) -> bool {
    &&& salt.len() == 22
    &&& forall|i: int| 0 <= i < salt.len() ==> is_b64_char(#[trigger] salt[i])
    &&& (salt.last() == 'A' || salt.last() == 'Q' || salt.last() == 'g' || salt.last() == 'w')
}

/// The start of every PHC string that `Argon2::default()` writes: algorithm
/// argon2id, version 19, 19456 KiB of memory, 2 passes, 1 lane.
pub open spec fn default_phc_prefix() -> Seq<char> {
    "$argon2id$v=19$m=19456,t=2,p=1$"@
}

/// `hash` is the PHC string of `Argon2::default()` for the 22-character salt
/// `salt`: the default prefix, the salt, `$`, and the 43 B64 characters of
/// the 32-byte output.
pub open spec fn is_default_phc_with_salt(hash: Seq<char>, salt: Seq<char>) -> bool {
    &&& hash.len() == default_phc_prefix().len() + salt.len() + 1 + 43
    &&& hash.take(default_phc_prefix().len() + salt.len() + 1 as int) == default_phc_prefix() + salt + "$"@
}

/// The PHC string that `Argon2::default().hash_password` writes for
/// `password` under the salt whose B64 text is `salt`.
pub uninterp spec fn argon2_hash_text(password: Seq<u8>, salt: Seq<char>) -> Seq<char>;

/// The B64 text of a salt that `SaltString::encode_b64` writes for `bytes`.
pub uninterp spec fn salt_text_of(bytes: Seq<u8>) -> Seq<char>;

/// Writes 16 salt bytes as a `SaltString` with `SaltString::encode_b64`, the
/// encoding that `SaltString::generate` uses for the bytes it draws, and
/// gives its text. Claimed: for 16 bytes the encoding succeeds (the 22
/// characters fit the 64 a salt may have), and its text is what
/// `is_generated_salt` describes, named `salt_text_of` of the bytes.
#[verifier::external_body]
pub(crate) fn salt_text(bytes: &[u8; 16]) -> (r: Result<String, argon2::password_hash::Error>)
    ensures
        r is Ok,
        r matches Ok(salt) ==> salt@ == salt_text_of(bytes@) && is_generated_salt(salt@),
{
    Ok(SaltString::encode_b64(bytes)?.as_str().to_string())
}

/// Two PHC strings written by `Argon2::default()` under different salts
/// differ: the salt stands at the same place in both. So two hashes of one
/// password under different salts differ.
pub proof fn lemma_salted_hashes_differ(h1: Seq<char>, s1: Seq<char>, h2: Seq<char>, s2: Seq<char>)
    requires
        is_generated_salt(s1),
        is_generated_salt(s2),
        is_default_phc_with_salt(h1, s1),
        is_default_phc_with_salt(h2, s2),
        s1 != s2,
    ensures
        h1 != h2,
{
    let p = default_phc_prefix().len() as int;
    if h1 == h2 {
        assert((default_phc_prefix() + s1 + "$"@).subrange(p, p + 22) =~= s1);
        assert((default_phc_prefix() + s2 + "$"@).subrange(p, p + 22) =~= s2);
        assert(h1.take(p + 23) == h2.take(p + 23));
        assert(s1 =~= s2);
    }
}

/// Hashes `password` with `Argon2::default().hash_password` under the salt
/// whose B64 text is `salt` (turned into a `Salt` with `Salt::from_b64`) and
/// writes the result as a PHC string. Claimed: for a salt as `SaltString`
/// writes it for 16 bytes, hashing fails only for a password longer than `0xFFFF_FFFF`
/// bytes (`MAX_PWD_LEN`); the string is named `argon2_hash_text` of the
/// password and salt, has the default prefix, the salt and a 43-character
/// output, parses again with `PasswordHash::new`, and `verify_password`
/// accepts the same password against it, as the crate documents.
#[verifier::external_body]
pub(crate) fn argon2_hash(password: &[u8], salt: &str) -> (r: Result<String, argon2::password_hash::Error>)
    requires
        is_generated_salt(salt@),
    ensures
        password@.len() <= 0xFFFF_FFFF ==> r is Ok,
        r matches Ok(h) ==> {
            &&& h@ == argon2_hash_text(password@, salt@)
            &&& is_default_phc_with_salt(h@, salt@)
            &&& hash_admits(h@, password@)
        },
{
    let salt = Salt::from_b64(salt)?;
    Ok(Argon2::default().hash_password(password, salt)?.to_string())
}

} // verus!
