use vstd::prelude::*;

verus! {

/// The longest idempotency key accepted, in bytes of its UTF-8 encoding.
pub const MAX_IDEMPOTENCY_KEY_LEN: usize = 50;

/// Why a string is refused as an idempotency key.
#[derive(Debug, Clone, Copy, PartialEq, Eq, Structural)]
pub enum IdempotencyKeyError {
    /// The key is the empty string.
    Empty,
    /// The key is longer than `MAX_IDEMPOTENCY_KEY_LEN` bytes.
    TooLong,
}

/// The text of an idempotency-key error.
pub open spec fn idempotency_key_error_text(e: IdempotencyKeyError) -> Seq<char> {
    match e {
        IdempotencyKeyError::Empty => "The idempotency key must not be empty."@,
        IdempotencyKeyError::TooLong => "The idempotency key must not be longer than 50 characters."@,
    }
}

impl IdempotencyKeyError {
    /// The message explaining why the key was refused.
    pub fn message(&self) -> (r: &'static str)
        ensures
            r@ == idempotency_key_error_text(*self),
    {
        match self {
            IdempotencyKeyError::Empty => "The idempotency key must not be empty.",
            IdempotencyKeyError::TooLong => "The idempotency key must not be longer than 50 characters.",
        }
    }
}

/// A client-supplied key that identifies one request across retries.
#[derive(Debug)]
pub struct IdempotencyKey(String);

/// Length in bytes of the UTF-8 encoding of `s`, which is what `str::len` counts.
pub open spec fn utf8_len(s: Seq<char>) -> nat {
    vstd::utf8::encode_utf8(s).len()
}

/// What `IdempotencyKey::try_from` gives for a string with characters `s`.
pub open spec fn idempotency_key_check(s: Seq<char>) -> Result<(), IdempotencyKeyError> {
    if s.len() == 0 {
        Err(IdempotencyKeyError::Empty)
    } else if utf8_len(s) > MAX_IDEMPOTENCY_KEY_LEN {
        Err(IdempotencyKeyError::TooLong)
    } else {
        Ok(())
    }
}

impl View for IdempotencyKey {
    type V = Seq<char>;

    closed spec fn view(&self) -> Seq<char> {
        self.0@
    }
}

impl TryFrom<String> for IdempotencyKey {
    type Error = IdempotencyKeyError;

    /// Accepts `value` as a key when it is non-empty and at most 50 bytes long.
    fn try_from(value: String) -> (r: Result<IdempotencyKey, IdempotencyKeyError>)
        ensures
            r is Ok <==> idempotency_key_check(value@) is Ok,
            r matches Ok(k) ==> k@ == value@,
            r matches Err(e) ==> idempotency_key_check(value@) == Err::<(), _>(e),
            r is Ok <==> 0 < value@.len() && vstd::utf8::encode_utf8(value@).len() <= 50,
    {
        if value.as_str().is_empty() {
            return Err(IdempotencyKeyError::Empty);
        }
        if value.as_str().as_bytes().len() > MAX_IDEMPOTENCY_KEY_LEN {
            return Err(IdempotencyKeyError::TooLong);
        }
        Ok(IdempotencyKey(value))
    }
}

impl vstd::std_specs::convert::TryFromSpecImpl<String> for IdempotencyKey {
    open spec fn obeys_try_from_spec() -> bool {
        true
    }

    closed spec fn try_from_spec(v: String) -> Result<IdempotencyKey, IdempotencyKeyError> {
        match idempotency_key_check(v@) {
            Ok(_) => Ok(IdempotencyKey(v)),
            Err(e) => Err(e),
        }
    }
}

impl From<IdempotencyKey> for String {
    /// Gives back the string the key was made from.
    fn from(value: IdempotencyKey) -> (r: String)
        ensures
            r@ == value@,
    {
        value.0
    }
}

impl vstd::std_specs::convert::FromSpecImpl<IdempotencyKey> for String {
    open spec fn obeys_from_spec() -> bool {
        true
    }

    closed spec fn from_spec(v: IdempotencyKey) -> String {
        v.0
    }
}

impl IdempotencyKey {
    /// The key as a string slice.
    pub fn as_ref(&self) -> (r: &str)
        ensures
            r@ == self@,
    {
        self.0.as_str()
    }
}

/// One response header as it is saved: its name and its raw value.
#[derive(Debug, Clone)]
pub struct HeaderPairRecord {
    pub name: String,
    pub value: Vec<u8>,
}

/// A saved response as the idempotency table holds it.
#[derive(Debug)]
pub struct SavedRecord {
    pub response_status_code: i16,
    pub response_headers: Vec<HeaderPairRecord>,
    pub response_body: Vec<u8>,
}

/// A saved response, ready to be sent again.
#[derive(Debug)]
pub struct SavedResponse {
    pub status_code: u16,
    pub headers: Vec<HeaderPairRecord>,
    pub body: Vec<u8>,
}

/// Why a saved response cannot be sent again.
#[derive(Debug, Clone, Copy, PartialEq, Eq, Structural)]
pub enum SavedResponseError {
    /// The saved status code is negative.
    NegativeStatusCode,
    /// The saved status code is not a three-digit HTTP status code.
    InvalidStatusCode,
}

/// Whether `actix_web::http::StatusCode::from_u16` accepts `code`.
pub open spec fn is_status_code(code: u16) -> bool {
    100 <= code <= 999
}

/// Calls `actix_web::http::StatusCode::from_u16`, which accepts exactly the
/// codes from 100 to 999, and tells whether it accepted `code`.
#[verifier::external_body]
fn status_code_accepted(code: u16) -> (ok: bool)
    ensures
        ok == is_status_code(code),
{
    actix_web::http::StatusCode::from_u16(code).is_ok()
}

/// What is sent again for a saved record: nothing if no response was saved
/// for the key, else its status code, headers and body.
pub open spec fn saved_response_check(record: Option<SavedRecord>) -> Result<Option<u16>, SavedResponseError> {
    match record {
        None => Ok(None),
        Some(r) => if r.response_status_code < 0 {
            Err(SavedResponseError::NegativeStatusCode)
        } else if !is_status_code(r.response_status_code as u16) {
            Err(SavedResponseError::InvalidStatusCode)
        } else {
            Ok(Some(r.response_status_code as u16))
        },
    }
}

/// Turns the record saved for an idempotency key, if any, into the response
/// to send again; the record is looked up by user and key beforehand.
pub fn get_saved_response(record: Option<SavedRecord>) -> (r: Result<Option<SavedResponse>, SavedResponseError>)
    ensures
        match (saved_response_check(record), r) {
            (Ok(None), Ok(None)) => true,
            (Ok(Some(code)), Ok(Some(response))) => {
                &&& response.status_code == code
                &&& response.headers@ == record->0.response_headers@
                &&& response.body@ == record->0.response_body@
            },
            (Err(e), Err(f)) => e == f,
            _ => false,
        },
        record matches Some(saved) ==> (100 <= saved.response_status_code <= 999 ==> (r matches Ok(Some(response))
            && response.status_code == saved.response_status_code as u16
            && response.headers@ == saved.response_headers@ && response.body@ == saved.response_body@)),
        record matches Some(saved) ==> (saved.response_status_code < 0 ==> r
            == Err::<Option<SavedResponse>, SavedResponseError>(SavedResponseError::NegativeStatusCode)),
        record matches Some(saved) ==> (0 <= saved.response_status_code < 100 || 999
            < saved.response_status_code ==> r == Err::<Option<SavedResponse>, SavedResponseError>(
            SavedResponseError::InvalidStatusCode,
        )),
        record is None ==> r matches Ok(None),
{
    match record {
        None => Ok(None),
        Some(saved) => {
            if saved.response_status_code < 0 {
                return Err(SavedResponseError::NegativeStatusCode);
            }
            let code = saved.response_status_code as u16;
            if !status_code_accepted(code) {
                return Err(SavedResponseError::InvalidStatusCode);
            }
            Ok(Some(SavedResponse {
                status_code: code,
                headers: saved.response_headers,
                body: saved.response_body,
            }))
        },
    }
}

/// A saved response whose status code lies between 100 and 999 is always sent
/// again with that status code, whatever the code.
pub proof fn lemma_valid_saved_status_is_replayed(record: SavedRecord)
    requires
        100 <= record.response_status_code <= 999,
    ensures
        saved_response_check(Some(record)) == Ok::<Option<u16>, SavedResponseError>(
            Some(record.response_status_code as u16),
        ),
{
}

/// A saved status code is refused only when it is negative, or when it lies
/// outside 100 to 999; nothing saved for a key sends nothing again.
pub proof fn lemma_saved_status_refusals(record: SavedRecord)
    ensures
        record.response_status_code < 0 ==> saved_response_check(Some(record)) == Err::<
            Option<u16>,
            SavedResponseError,
        >(SavedResponseError::NegativeStatusCode),
        0 <= record.response_status_code < 100 || 999 < record.response_status_code
            ==> saved_response_check(Some(record)) == Err::<Option<u16>, SavedResponseError>(
            SavedResponseError::InvalidStatusCode,
        ),
        saved_response_check(Some(record)) is Err <==> !(100 <= record.response_status_code <= 999),
        saved_response_check(None) == Ok::<Option<u16>, SavedResponseError>(None),
{
}

/// A string is accepted as an idempotency key exactly when it is not empty
/// and its UTF-8 encoding is at most 50 bytes long; the empty string is
/// refused as empty, and a longer one as too long.
pub proof fn lemma_key_accepted_exactly(s: Seq<char>)
    ensures
        idempotency_key_check(s) is Ok <==> 0 < s.len() && vstd::utf8::encode_utf8(s).len() <= 50,
        s.len() == 0 ==> idempotency_key_check(s) == Err::<(), IdempotencyKeyError>(IdempotencyKeyError::Empty),
        0 < s.len() && vstd::utf8::encode_utf8(s).len() > 50 ==> idempotency_key_check(s) == Err::<
            (),
            IdempotencyKeyError,
        >(IdempotencyKeyError::TooLong),
{
}

/// A key made from a string gives that string back: converting an accepted
/// string to a key and the key back to a string is the identity.
pub proof fn lemma_key_round_trip(value: String)
    requires
        idempotency_key_check(value@) is Ok,
    ensures
        <IdempotencyKey as vstd::std_specs::convert::TryFromSpec<String>>::try_from_spec(value) matches Ok(key)
            && <String as vstd::std_specs::convert::FromSpec<IdempotencyKey>>::from_spec(key) == value,
{
}

} // verus!
