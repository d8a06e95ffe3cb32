//! Checking credentials against stored password hashes, and hashing new passwords.
use crate::hashing::{
    argon2_check, argon2_hash, argon2_hash_text, argon2_verifies, hash_admits, salt_text, salt_text_of,
    is_default_phc_with_salt, is_generated_salt, phc_parses,
};
use crate::random::{drawn_view, os_random_bytes};
use uuid::Uuid;
use vstd::prelude::*;
use vstd::utf8::encode_utf8;

verus! {

/// Why a set of credentials was not accepted.
#[derive(Debug)]
pub enum AuthError {
    /// The username is unknown or the password does not match; carries the reason.
    InvalidCredentials(String),
    /// Something else went wrong (a malformed stored hash, a failed lookup).
    UnexpectedError(String),
}

/// An `AuthError` as a value: which kind, and the characters of its reason.
pub enum AuthFailure {
    Invalid(Seq<char>),
    Unexpected(Seq<char>),
}

impl View for AuthError {
    type V = AuthFailure;

    open spec fn view(&self) -> AuthFailure {
        match self {
            AuthError::InvalidCredentials(m) => AuthFailure::Invalid(m@),
            AuthError::UnexpectedError(m) => AuthFailure::Unexpected(m@),
        }
    }
}

/// A username together with the password offered for it.
pub struct Credentials {
    pub username: String,
    pub password: String,
}

/// The PHC string checked when the username is unknown, so that an unknown
/// user costs as much time as a known one.
pub open spec fn default_password_hash() -> Seq<char> {
    "$argon2id$v=19$m=19456,t=2,p=1$gZiV/M1gPc22ElAH/Jh1Hw$CWOrkoo7oJBQ/iyh7uJ0LO2aLEfrHwTWllSAxT0zRno"@
}

/// What checking `password` against the stored hash `expected` gives.
pub open spec fn password_check(expected: Seq<char>, password: Seq<char>) -> Result<(), AuthFailure> {
    if !phc_parses(expected) {
        Err(AuthFailure::Unexpected("Failed to parse hash in PHC string format"@))
    } else if !argon2_verifies(expected, encode_utf8(password)) {
        Err(AuthFailure::Invalid("Invalid password"@))
    } else {
        Ok(())
    }
}

/// The stored credentials as values: the lookup's failure reason, or the
/// user id and PHC string found for the username, if any.
pub open spec fn stored_view(stored: Result<Option<(Uuid, String)>, String>) -> Result<Option<(Uuid, Seq<char>)>, Seq<char>> {
    match stored {
        Err(m) => Err(m@),
        Ok(None) => Ok(None),
        Ok(Some((id, h))) => Ok(Some((id, h@))),
    }
}

/// What validating `password` gives, given what the user store holds for the username.
pub open spec fn validation(password: Seq<char>, stored: Result<Option<(Uuid, Seq<char>)>, Seq<char>>) -> Result<Uuid, AuthFailure> {
    match stored {
        Err(m) => Err(AuthFailure::Unexpected(m)),
        Ok(Some((id, hash))) => match password_check(hash, password) {
            Err(f) => Err(f),
            Ok(_) => Ok(id),
        },
        Ok(None) => match password_check(default_password_hash(), password) {
            Err(AuthFailure::Invalid(reason)) => Err(AuthFailure::Invalid(reason)),
            _ => Err(AuthFailure::Invalid("Unknown username."@)),
        },
    }
}

/// Maps the outcome of a result to its value view.
pub open spec fn outcome_view<T>(r: Result<T, AuthError>) -> Result<T, AuthFailure> {
    match r {
        Ok(v) => Ok(v),
        Err(e) => Err(e@),
    }
}

fn default_hash_string() -> (r: String)
    ensures
        r@ == default_password_hash(),
{
    String::from_str("$argon2id$v=19$m=19456,t=2,p=1$gZiV/M1gPc22ElAH/Jh1Hw$CWOrkoo7oJBQ/iyh7uJ0LO2aLEfrHwTWllSAxT0zRno")
}

/// Checks `password` against the PHC string `expected_password_hash`.
pub fn verify_password_hash(expected_password_hash: &str, password: &str) -> (r: Result<(), AuthError>)
    ensures
        outcome_view(r) == password_check(expected_password_hash@, password@),
{
    match argon2_check(expected_password_hash, password.as_bytes()) {
        Err(_) => Err(AuthError::UnexpectedError(String::from_str("Failed to parse hash in PHC string format"))),
        Ok(true) => Ok(()),
        Ok(false) => Err(AuthError::InvalidCredentials(String::from_str("Invalid password"))),
    }
}

/// Decides whether `credentials` are valid, given `stored`: what the user store
/// holds for `credentials.username` (the user id and PHC string, nothing, or
/// the reason the lookup failed). The password is checked against a default
/// hash when the user is unknown, and an unknown user is always refused as
/// invalid credentials.
pub fn validate_credentials(credentials: &Credentials, stored: Result<Option<(Uuid, String)>, String>) -> (r: Result<Uuid, AuthError>)
    ensures
        outcome_view(r) == validation(credentials.password@, stored_view(stored)),
{
    let found = match stored {
        Err(m) => return Err(AuthError::UnexpectedError(m)),
        Ok(found) => found,
    };
    match found {
        Some((id, hash)) => {
            verify_password_hash(hash.as_str(), credentials.password.as_str())?;
            Ok(id)
        },
        None => {
            // The default hash is checked all the same, so that an unknown
            // user takes as long as a known one; the user is refused whatever
            // the check gives.
            let default_hash = default_hash_string();
            match verify_password_hash(default_hash.as_str(), credentials.password.as_str()) {
                Err(AuthError::InvalidCredentials(reason)) => Err(AuthError::InvalidCredentials(reason)),
                _ => Err(AuthError::InvalidCredentials(String::from_str("Unknown username."))),
            }
        },
    }
}

/// Why a password could not be hashed.
#[derive(Debug)]
pub enum HashingError {
    /// The operating system's random source failed, so no salt could be drawn.
    RandomSource,
    /// Argon2 refused the password: it is longer than `0xFFFF_FFFF` bytes.
    Argon2,
}

/// The PHC string of `password` hashed with `Argon2::default()` under the salt
/// written for the 16 bytes `salt_bytes`.
pub open spec fn password_hash_text(password: Seq<char>, salt_bytes: Seq<u8>) -> Seq<char> {
    argon2_hash_text(encode_utf8(password), salt_text_of(salt_bytes))
}

/// Hashes `password` with Argon2 under the salt written for `salt_bytes`, as a
/// PHC string: algorithm argon2id, version 19, the default costs, that salt,
/// then the output. It fails only for a password longer than `0xFFFF_FFFF` bytes.
pub fn hash_password_with_salt_bytes(password: &str, salt_bytes: &[u8; 16]) -> (r: Result<String, HashingError>)
    ensures
        encode_utf8(password@).len() <= 0xFFFF_FFFF ==> r is Ok,
        r matches Err(e) ==> e is Argon2 && encode_utf8(password@).len() > 0xFFFF_FFFF,
        r matches Ok(h) ==> {
            &&& h@ == password_hash_text(password@, salt_bytes@)
            &&& is_generated_salt(salt_text_of(salt_bytes@))
            &&& is_default_phc_with_salt(h@, salt_text_of(salt_bytes@))
            &&& hash_admits(h@, encode_utf8(password@))
        },
{
    let salt = match salt_text(salt_bytes) {
        Ok(salt) => salt,
        Err(_) => return Err(HashingError::Argon2),
    };
    match argon2_hash(password.as_bytes(), salt.as_str()) {
        Ok(h) => Ok(h),
        Err(_) => Err(HashingError::Argon2),
    }
}

/// A hashing result as a value: the characters of the PHC string, or the error.
pub open spec fn hashed_view(r: Result<String, HashingError>) -> Result<Seq<char>, HashingError> {
    match r {
        Ok(h) => Ok(h@),
        Err(e) => Err(e),
    }
}

/// Whether `r` is what hashing `password` answers when the draw of a salt gave
/// `drawn`: no bytes drawn is the random source's error; with bytes drawn,
/// either the PHC string of the password under the salt written for them, or
/// Argon2's refusal of a password longer than `0xFFFF_FFFF` bytes.
pub open spec fn hashing_answers(
    password: Seq<char>,
    drawn: Option<Seq<u8>>,
    r: Result<Seq<char>, HashingError>,
) -> bool {
    match drawn {
        None => r matches Err(HashingError::RandomSource),
        Some(salt_bytes) => match r {
            Ok(h) => h == password_hash_text(password, salt_bytes),
            Err(e) => e is Argon2 && encode_utf8(password).len() > 0xFFFF_FFFF,
        },
    }
}

/// Hashes `password` under a salt made of `drawn`, the outcome of a draw of 16
/// bytes from the random source: the random source's error when nothing was
/// drawn, else the PHC string of the password under the salt written for the
/// bytes drawn, which fails only for a password longer than `0xFFFF_FFFF` bytes.
pub fn hash_password_with_drawn_salt(password: &str, drawn: Option<[u8; 16]>) -> (r: Result<String, HashingError>)
    ensures
        hashing_answers(password@, drawn_view(drawn), hashed_view(r)),
        drawn is None <==> r matches Err(HashingError::RandomSource),
        drawn matches Some(salt_bytes) ==> (encode_utf8(password@).len() <= 0xFFFF_FFFF ==> (r matches Ok(h)
            && h@ == password_hash_text(password@, salt_bytes@))),
        r matches Ok(h) ==> (drawn matches Some(salt_bytes) && {
            &&& h@ == password_hash_text(password@, salt_bytes@)
            &&& is_generated_salt(salt_text_of(salt_bytes@))
            &&& is_default_phc_with_salt(h@, salt_text_of(salt_bytes@))
            &&& hash_admits(h@, encode_utf8(password@))
        }),
{
    let salt_bytes = match drawn {
        Some(bytes) => bytes,
        None => return Err(HashingError::RandomSource),
    };
    let r = hash_password_with_salt_bytes(password, &salt_bytes);
    r
}

/// Hashes `password` with Argon2 under a fresh salt of 16 bytes drawn from the
/// operating system's random source, as a PHC string. Hashing succeeds for
/// every password of at most `0xFFFF_FFFF` bytes, unless that source fails:
/// the result is what `hash_password_with_drawn_salt` gives for the draw made.
pub fn compute_password_hash(password: &str) -> (r: Result<String, HashingError>)
    ensures
        encode_utf8(password@).len() <= 0xFFFF_FFFF ==> !(r matches Err(HashingError::Argon2)),
        exists|drawn: Option<Seq<u8>>|
            #![trigger hashing_answers(password@, drawn, hashed_view(r))]
            (drawn matches Some(salt_bytes) ==> salt_bytes.len() == 16) && hashing_answers(
                password@,
                drawn,
                hashed_view(r),
            ),
        r matches Ok(h) ==> exists|salt_bytes: Seq<u8>|
            #![trigger password_hash_text(password@, salt_bytes)]
            {
                &&& salt_bytes.len() == 16
                &&& h@ == password_hash_text(password@, salt_bytes)
                &&& is_generated_salt(salt_text_of(salt_bytes))
                &&& is_default_phc_with_salt(h@, salt_text_of(salt_bytes))
                &&& hash_admits(h@, encode_utf8(password@))
            },
{
    let drawn = os_random_bytes();
    let r = hash_password_with_drawn_salt(password, drawn);
    assert(hashing_answers(password@, drawn_view(drawn), hashed_view(r)));
    if let Some(bytes) = drawn {
        if let Ok(h) = &r {
            assert(h@ == password_hash_text(password@, bytes@));
        }
    }
    r
}

/// With bytes drawn for the salt, hashing a password of at most `0xFFFF_FFFF`
/// bytes always succeeds, and gives the PHC string of the password under the
/// salt written for those bytes.
pub proof fn lemma_drawn_salt_always_hashes(
    password: Seq<char>,
    salt_bytes: Seq<u8>,
    r: Result<Seq<char>, HashingError>,
)
    requires
        encode_utf8(password).len() <= 0xFFFF_FFFF,
        hashing_answers(password, Some(salt_bytes), r),
    ensures
        r == Ok::<Seq<char>, HashingError>(password_hash_text(password, salt_bytes)),
{
}

/// The random source's error is answered only when no bytes were drawn, and
/// always then.
pub proof fn lemma_random_source_error_only_without_draw(
    password: Seq<char>,
    drawn: Option<Seq<u8>>,
    r: Result<Seq<char>, HashingError>,
)
    requires
        hashing_answers(password, drawn, r),
    ensures
        (r matches Err(HashingError::RandomSource)) <==> drawn is None,
{
}

/// Two hashes of a password under salts with different texts differ: equal
/// passwords do not give equal stored hashes.
pub proof fn lemma_hashes_under_different_salts_differ(
    password: Seq<char>,
    h1: Seq<char>,
    salt_bytes1: Seq<u8>,
    h2: Seq<char>,
    salt_bytes2: Seq<u8>,
)
    requires
        is_generated_salt(salt_text_of(salt_bytes1)),
        is_generated_salt(salt_text_of(salt_bytes2)),
        is_default_phc_with_salt(h1, salt_text_of(salt_bytes1)),
        is_default_phc_with_salt(h2, salt_text_of(salt_bytes2)),
        salt_text_of(salt_bytes1) != salt_text_of(salt_bytes2),
    ensures
        h1 != h2,
{
    crate::hashing::lemma_salted_hashes_differ(h1, salt_text_of(salt_bytes1), h2, salt_text_of(salt_bytes2));
}

/// An unknown username is never accepted, whatever the password, even one
/// that the default hash happens to admit.
pub proof fn lemma_unknown_user_rejected(password: Seq<char>)
    ensures
        validation(password, Ok(None)) matches Err(AuthFailure::Invalid(_)),
{
}

/// Validation accepts only a stored user, returns that user's id, and does so
/// only for a password that the stored hash admits.
pub proof fn lemma_accepted_only_by_stored_hash(
    password: Seq<char>,
    stored: Result<Option<(Uuid, Seq<char>)>, Seq<char>>,
    id: Uuid,
)
    requires
        validation(password, stored) == Ok::<Uuid, AuthFailure>(id),
    ensures
        stored matches Ok(Some((stored_id, hash))) && stored_id == id && hash_admits(
            hash,
            encode_utf8(password),
        ),
{
}

/// A password validates against a hash that `compute_password_hash` made of
/// it: after a password change, the new password logs the user in.
pub proof fn lemma_new_password_validates(password: Seq<char>, id: Uuid, hash: Seq<char>)
    requires
        hash_admits(hash, encode_utf8(password)),
    ensures
        validation(password, Ok(Some((id, hash)))) == Ok::<Uuid, AuthFailure>(id),
{
}

/// A password that a well-formed stored hash does not admit is refused as
/// invalid credentials.
pub proof fn lemma_wrong_password_rejected(password: Seq<char>, id: Uuid, hash: Seq<char>)
    requires
        phc_parses(hash),
        !argon2_verifies(hash, encode_utf8(password)),
    ensures
        validation(password, Ok(Some((id, hash)))) == Err::<Uuid, AuthFailure>(
            AuthFailure::Invalid("Invalid password"@),
        ),
{
}

} // verus!
