//! The newsletter publication form of the admin area: `GET /admin/newsletters`.
use crate::idempotency::{idempotency_key_check, utf8_len};
use crate::random::{drawn_view, os_random_bytes};
use crate::reply::{flash_html, flash_messages_html, message_views};
use vstd::prelude::*;

verus! {

/// The form up to the flash messages.
pub open spec fn form_head() -> Seq<char> {
    "\n        <html lang=\"en\">\n        <head>\n            <meta http-equiv=\"content-type\" content=\"text/html; charset=utf-8\">\n            <title>Publish newsletter issue</title>\n        </head>\n        <body>\n            "@
}

/// The form between the flash messages and the idempotency key.
pub open spec fn form_middle() -> Seq<char> {
    "\n            <h1>Publish newsletter issue</h1>\n            <form action=\"/newsletters\" method=\"post\">\n                <label>Title\n                    <input type=\"text\" name=\"title\">\n                    <placeholder=\"Title of the newsletter issue\"></input>\n                </label>\n                <br>\n                <label>HTML content\n                    <textarea name=\"html_content\"></textarea>\n                    <placeholder=\"HTML content of the newsletter issue\"></textarea>\n                </label>\n                <br>\n                <label>Text content\n                    <textarea name=\"text_content\"></textarea>\n                    <placeholder=\"Text content of the newsletter issue\"></textarea>\n                </label>\n                <br>\n                <input type=\"hidden\" name=\"idempotency_key\" value=\""@
}

/// The form after the idempotency key.
pub open spec fn form_tail() -> Seq<char> {
    "\">\n                <button type=\"submit\">Publish</button>\n            </form>\n            <p><a href=\"/admin/dashboard\">&lt;- Back</a></p>\n        </body>\n        </html>\n        "@
}

/// The publication form showing `error_html` and carrying `idempotency_key`
/// in a hidden field.
pub open spec fn newsletter_form_html(error_html: Seq<char>, idempotency_key: Seq<char>) -> Seq<char> {
    form_head() + error_html + form_middle() + idempotency_key + form_tail()
}

/// A lowercase hexadecimal digit.
pub open spec fn is_lower_hex(c: char) -> bool {
    ('0' <= c && c <= '9') || ('a' <= c && c <= 'f')
}

/// The hyphenated text of a UUID: 36 characters, lowercase hexadecimal
/// digits with `-` at positions 8, 13, 18 and 23.
pub open spec fn is_hyphenated_uuid(s: Seq<char>) -> bool {
    &&& s.len() == 36
    &&& forall|i: int|
        0 <= i < 36 ==> if i == 8 || i == 13 || i == 18 || i == 23 {
            #[trigger] s[i] == '-'
        } else {
            is_lower_hex(s[i])
        }
}

/// The text that `uuid::Builder::from_random_bytes(bytes).into_uuid()` writes
/// with its `Display` impl.
pub uninterp spec fn uuid_v4_text(bytes: Seq<u8>) -> Seq<char>;

/// Makes a version-4 UUID of 16 random bytes with
/// `uuid::Builder::from_random_bytes` (which sets the version and variant
/// bits, as `Uuid::new_v4` does) and writes it with its `Display` impl, the
/// hyphenated lowercase form. Claimed: the text is named `uuid_v4_text` of the
/// bytes and is a hyphenated UUID.
#[verifier::external_body]
fn uuid_text(bytes: [u8; 16]) -> (key: String)
    ensures
        key@ == uuid_v4_text(bytes@),
        is_hyphenated_uuid(key@),
{
    uuid::Builder::from_random_bytes(bytes).into_uuid().to_string()
}

/// The text of a UUID is accepted as an idempotency key: it is 36 bytes long.
pub proof fn lemma_uuid_text_is_idempotency_key(s: Seq<char>)
    requires
        is_hyphenated_uuid(s),
    ensures
        utf8_len(s) == 36,
        idempotency_key_check(s) is Ok,
{
    assert forall|i: int| 0 <= i < s.len() implies '\0' <= #[trigger] s[i] <= '\u{7f}' by {
        if i == 8 || i == 13 || i == 18 || i == 23 {
        } else {
            assert(is_lower_hex(s[i]));
        }
    }
    assert(vstd::utf8::is_ascii_chars(s));
    vstd::utf8::is_ascii_chars_encode_utf8(s);
}

/// The publication form with the flash `messages` and the given idempotency key.
pub fn newsletter_form_with_key(messages: &Vec<String>, idempotency_key: &str) -> (r: String)
    ensures
        r@ == newsletter_form_html(flash_html(message_views(messages@)), idempotency_key@),
{
    let error_html = flash_messages_html(messages);
    let mut html = String::from_str("\n        <html lang=\"en\">\n        <head>\n            <meta http-equiv=\"content-type\" content=\"text/html; charset=utf-8\">\n            <title>Publish newsletter issue</title>\n        </head>\n        <body>\n            ");
    html.append(error_html.as_str());
    html.append("\n            <h1>Publish newsletter issue</h1>\n            <form action=\"/newsletters\" method=\"post\">\n                <label>Title\n                    <input type=\"text\" name=\"title\">\n                    <placeholder=\"Title of the newsletter issue\"></input>\n                </label>\n                <br>\n                <label>HTML content\n                    <textarea name=\"html_content\"></textarea>\n                    <placeholder=\"HTML content of the newsletter issue\"></textarea>\n                </label>\n                <br>\n                <label>Text content\n                    <textarea name=\"text_content\"></textarea>\n                    <placeholder=\"Text content of the newsletter issue\"></textarea>\n                </label>\n                <br>\n                <input type=\"hidden\" name=\"idempotency_key\" value=\"");
    html.append(idempotency_key);
    html.append("\">\n                <button type=\"submit\">Publish</button>\n            </form>\n            <p><a href=\"/admin/dashboard\">&lt;- Back</a></p>\n        </body>\n        </html>\n        ");
    html
}

/// The publication form with the flash `messages` and, as its idempotency
/// key, the hyphenated text of the version-4 UUID made of `key_bytes`, which
/// is a valid idempotency key.
pub fn newsletter_form_for_bytes(messages: &Vec<String>, key_bytes: [u8; 16]) -> (r: String)
    ensures
        r@ == newsletter_form_html(flash_html(message_views(messages@)), uuid_v4_text(key_bytes@)),
        is_hyphenated_uuid(uuid_v4_text(key_bytes@)),
        idempotency_key_check(uuid_v4_text(key_bytes@)) is Ok,
{
    let key = uuid_text(key_bytes);
    proof {
        lemma_uuid_text_is_idempotency_key(key@);
    }
    newsletter_form_with_key(messages, key.as_str())
}

/// The publication form answered for the flash `messages` when the draw of a
/// key gave `drawn`: none without bytes drawn, else the form carrying the
/// version-4 UUID made of the bytes drawn.
pub open spec fn newsletter_form_answer(messages: Seq<Seq<char>>, drawn: Option<Seq<u8>>) -> Option<Seq<char>> {
    match drawn {
        None => None,
        Some(key_bytes) => Some(newsletter_form_html(flash_html(messages), uuid_v4_text(key_bytes))),
    }
}

/// A page as a value: the characters of the page, if there is one.
pub open spec fn page_view(page: Option<String>) -> Option<Seq<char>> {
    match page {
        Some(p) => Some(p@),
        None => None,
    }
}

/// The publication form with the flash `messages` and, as its idempotency
/// key, the version-4 UUID made of `drawn`, the outcome of a draw of 16 bytes
/// from the random source; no form when nothing was drawn.
pub fn newsletter_form_for_draw(messages: &Vec<String>, drawn: Option<[u8; 16]>) -> (r: Option<String>)
    ensures
        page_view(r) == newsletter_form_answer(message_views(messages@), drawn_view(drawn)),
        r is None <==> drawn is None,
        drawn matches Some(key_bytes) ==> (r matches Some(page) && page@ == newsletter_form_html(
            flash_html(message_views(messages@)),
            uuid_v4_text(key_bytes@),
        ) && is_hyphenated_uuid(uuid_v4_text(key_bytes@)) && idempotency_key_check(
            uuid_v4_text(key_bytes@),
        ) is Ok),
{
    let key_bytes = match drawn {
        Some(bytes) => bytes,
        None => return None,
    };
    let page = newsletter_form_for_bytes(messages, key_bytes);
    Some(page)
}

/// The publication form with the flash `messages` and, as its idempotency
/// key, a new version-4 UUID made of 16 bytes drawn from the operating
/// system's random source. Gives `None` only when that source fails: the
/// result is what `newsletter_form_for_draw` gives for the draw made.
pub fn publish_newsletter_form(messages: &Vec<String>) -> (r: Option<String>)
    ensures
        exists|drawn: Option<Seq<u8>>|
            #![trigger newsletter_form_answer(message_views(messages@), drawn)]
            (drawn matches Some(key_bytes) ==> key_bytes.len() == 16) && page_view(r) == newsletter_form_answer(
                message_views(messages@),
                drawn,
            ),
        r matches Some(page) ==> exists|key_bytes: Seq<u8>|
            #![trigger uuid_v4_text(key_bytes)]
            {
                &&& key_bytes.len() == 16
                &&& page@ == newsletter_form_html(flash_html(message_views(messages@)), uuid_v4_text(key_bytes))
                &&& is_hyphenated_uuid(uuid_v4_text(key_bytes))
                &&& idempotency_key_check(uuid_v4_text(key_bytes)) is Ok
            },
{
    let drawn = os_random_bytes();
    let r = newsletter_form_for_draw(messages, drawn);
    assert(page_view(r) == newsletter_form_answer(message_views(messages@), drawn_view(drawn)));
    if let Some(bytes) = drawn {
        assert(is_hyphenated_uuid(uuid_v4_text(bytes@)));
    }
    r
}

/// Every draw of key bytes gives the form: it carries the version-4 UUID made
/// of the bytes drawn, which is a valid idempotency key, and no form is
/// answered only when nothing was drawn.
pub proof fn lemma_form_for_every_draw(messages: Seq<Seq<char>>, drawn: Option<Seq<u8>>)
    requires
        drawn matches Some(key_bytes) ==> is_hyphenated_uuid(uuid_v4_text(key_bytes)),
    ensures
        newsletter_form_answer(messages, drawn) is None <==> drawn is None,
        drawn matches Some(key_bytes) ==> newsletter_form_answer(messages, drawn) == Some(
            newsletter_form_html(flash_html(messages), uuid_v4_text(key_bytes)),
        ) && idempotency_key_check(uuid_v4_text(key_bytes)) is Ok,
{
    if let Some(key_bytes) = drawn {
        lemma_uuid_text_is_idempotency_key(uuid_v4_text(key_bytes));
    }
}

} // verus!
