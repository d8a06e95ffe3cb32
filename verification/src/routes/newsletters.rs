//! The plain newsletter publication form: `GET /newsletters`.
use vstd::prelude::*;

verus! {

/// The plain publication form.
pub open spec fn plain_newsletter_form_html() -> Seq<char> {
    "\n        <form action=\"/newsletters\" method=\"post\">\n            <label>Title\n                <input type=\"text\" name=\"title\">\n            </label>\n            <br>\n            <label>HTML content\n                <textarea name=\"html_content\"></textarea>\n            </label>\n            <br>\n            <label>Text content\n                <textarea name=\"text_content\"></textarea>\n            </label>\n            <br>\n            <button type=\"submit\">Publish</button>\n        </form>\n        "@
}

/// The plain publication form. It shows no flash messages.
pub fn publish_newsletter_form() -> (r: String)
    ensures
        r@ == plain_newsletter_form_html(),
{
    String::from_str("\n        <form action=\"/newsletters\" method=\"post\">\n            <label>Title\n                <input type=\"text\" name=\"title\">\n            </label>\n            <br>\n            <label>HTML content\n                <textarea name=\"html_content\"></textarea>\n            </label>\n            <br>\n            <label>Text content\n                <textarea name=\"text_content\"></textarea>\n            </label>\n            <br>\n            <button type=\"submit\">Publish</button>\n        </form>\n        ")
}

} // verus!
