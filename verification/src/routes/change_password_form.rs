//! The change-password form: `GET /admin/password`.
use crate::reply::{
    change_password_form_head, change_password_form_html, flash_html, flash_paragraph,
    lemma_flash_html_shows_message, Location, Page, Reply,
};
use crate::routes::admin_access::admission;
use uuid::Uuid;
use vstd::prelude::*;

verus! {

/// What the form handler answers, given the session read (the logged-in
/// user's id, if any, or the cause of the failure to read it) and the flash
/// messages that came with the request.
pub open spec fn change_password_form_reply(session: Result<Option<Uuid>, String>, messages: Vec<String>) -> Reply {
    match session {
        Err(cause) => Reply::ServerError(cause),
        Ok(None) => Reply::SeeOther(Location::Login),
        Ok(Some(_)) => Reply::Page(Page::ChangePasswordForm(messages)),
    }
}

/// Serves the change-password form, listing the flash messages, to a
/// logged-in user, and sends anyone else to `/login`.
pub fn change_password_form(session: Result<Option<Uuid>, String>, messages: Vec<String>) -> (r: Reply)
    ensures
        r == change_password_form_reply(session, messages),
        session matches Ok(Some(_)) ==> r == Reply::Page(Page::ChangePasswordForm(messages)),
        session matches Ok(None) ==> r == Reply::SeeOther(Location::Login),
{
    match session {
        Err(cause) => Reply::ServerError(cause),
        Ok(None) => Reply::SeeOther(Location::Login),
        Ok(Some(_)) => Reply::Page(Page::ChangePasswordForm(messages)),
    }
}

/// The change-password form shows every flash message as its own paragraph,
/// in the order they came.
pub proof fn lemma_form_shows_flash_messages(messages: Seq<Seq<char>>, i: int)
    requires
        0 <= i < messages.len(),
    ensures
        ({
            let start = (change_password_form_head().len() + flash_html(messages.take(i)).len()) as int;
            change_password_form_html(messages).subrange(start, start + flash_paragraph(messages[i]).len())
                == flash_paragraph(messages[i])
        }),
{
    lemma_flash_html_shows_message(messages, i);
    let head = change_password_form_head();
    let start = (head.len() + flash_html(messages.take(i)).len()) as int;
    let inner = flash_html(messages.take(i)).len() as int;
    assert(change_password_form_html(messages).subrange(start, start + flash_paragraph(messages[i]).len())
        =~= flash_html(messages).subrange(inner, inner + flash_paragraph(messages[i]).len()));
}

/// The form is served, with all the flash messages that came, to exactly the
/// users that the admin area admits; anyone else gets what the admin area
/// answers.
pub proof fn lemma_form_served_to_admitted_users(session: Result<Option<Uuid>, String>, messages: Vec<String>)
    ensures
        admission(session) is Ok ==> change_password_form_reply(session, messages) == Reply::Page(
            Page::ChangePasswordForm(messages),
        ),
        admission(session) matches Err(reply) ==> change_password_form_reply(session, messages) == reply,
{
}

} // verus!
