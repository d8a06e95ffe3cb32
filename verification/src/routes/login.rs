//! Logging in: `POST /login`.
//!
//! The handler checks the credentials against the user store, then decides;
//! `login` takes what just happened and says where the request now stands
//! and what to do next.
use crate::authentication::{outcome_view, validation, AuthError, AuthFailure, Credentials};
use crate::hashing::hash_admits;
use crate::reply::{session_user_after, Location, Notice, Reply, SessionUpdate};
use uuid::Uuid;
use vstd::prelude::*;
use vstd::utf8::encode_utf8;

verus! {

/// The fields of the login form.
pub struct FormData {
    pub username: String,
    pub password: String,
}

/// Where a login stands.
#[derive(Debug, Clone, Copy, PartialEq, Eq, Structural)]
pub enum LoginState {
    /// The form has arrived.
    Received,
    /// The credentials are being checked.
    AwaitingCredentialCheck,
    /// The answer has been given.
    Done,
}

/// What happened since the last action.
#[derive(Debug)]
pub enum LoginEvent {
    /// The form was submitted.
    Submitted,
    /// The credentials were checked: the user's id, or why they were refused.
    CredentialsChecked(Result<Uuid, AuthError>),
}

/// What to do next.
pub enum LoginAction {
    /// Check these credentials against the user store.
    CheckCredentials(Credentials),
    /// Update the session, send the flash notice if any, and answer with the reply.
    Respond(SessionUpdate, Option<Notice>, Reply),
}

/// One step of a login with `form`.
pub open spec fn login_step(form: FormData, event: LoginEvent) -> (LoginState, LoginAction) {
    match event {
        LoginEvent::Submitted => (
            LoginState::AwaitingCredentialCheck,
            LoginAction::CheckCredentials(Credentials { username: form.username, password: form.password }),
        ),
        LoginEvent::CredentialsChecked(Ok(user_id)) => (
            LoginState::Done,
            LoginAction::Respond(SessionUpdate::LogIn(user_id), None, Reply::SeeOther(Location::AdminDashboard)),
        ),
        LoginEvent::CredentialsChecked(Err(AuthError::InvalidCredentials(_))) => (
            LoginState::Done,
            LoginAction::Respond(
                SessionUpdate::Unchanged,
                Some(Notice::AuthenticationFailed),
                Reply::SeeOther(Location::Login),
            ),
        ),
        LoginEvent::CredentialsChecked(Err(AuthError::UnexpectedError(cause))) => (
            LoginState::Done,
            LoginAction::Respond(SessionUpdate::Unchanged, None, Reply::ServerError(cause)),
        ),
    }
}

/// Decides the next step of a login with `form`: valid credentials renew
/// the session's key, record the user in it and lead to `/admin/dashboard`;
/// refused ones lead back to `/login` with the notice "Authentication failed".
/// The event alone decides the step; the state returned says what the caller
/// awaits next.
pub fn login(form: &FormData, event: LoginEvent) -> (r: (LoginState, LoginAction))
    ensures
        r == login_step(*form, event),
        event is Submitted ==> r == (
            LoginState::AwaitingCredentialCheck,
            LoginAction::CheckCredentials(Credentials { username: form.username, password: form.password }),
        ),
        event matches LoginEvent::CredentialsChecked(Ok(user_id)) ==> r == (
            LoginState::Done,
            LoginAction::Respond(SessionUpdate::LogIn(user_id), None, Reply::SeeOther(Location::AdminDashboard)),
        ),
{
    match event {
        LoginEvent::Submitted => (
            LoginState::AwaitingCredentialCheck,
            LoginAction::CheckCredentials(
                Credentials { username: form.username.clone(), password: form.password.clone() },
            ),
        ),
        LoginEvent::CredentialsChecked(Ok(user_id)) => (
            LoginState::Done,
            LoginAction::Respond(SessionUpdate::LogIn(user_id), None, Reply::SeeOther(Location::AdminDashboard)),
        ),
        LoginEvent::CredentialsChecked(Err(AuthError::InvalidCredentials(_))) => (
            LoginState::Done,
            LoginAction::Respond(
                SessionUpdate::Unchanged,
                Some(Notice::AuthenticationFailed),
                Reply::SeeOther(Location::Login),
            ),
        ),
        LoginEvent::CredentialsChecked(Err(AuthError::UnexpectedError(cause))) => (
            LoginState::Done,
            LoginAction::Respond(SessionUpdate::Unchanged, None, Reply::ServerError(cause)),
        ),
    }
}

/// A submitted login form always leads to a check of exactly the username and
/// password submitted, whatever they are: no form is answered before its
/// credentials are checked.
pub proof fn lemma_submitted_form_is_checked(form: FormData)
    ensures
        login_step(form, LoginEvent::Submitted) == (
            LoginState::AwaitingCredentialCheck,
            LoginAction::CheckCredentials(Credentials { username: form.username, password: form.password }),
        ),
{
}

/// Credentials that check out log the user in: the session records the user
/// whose id the check gave, no notice is flashed, and the answer leads to
/// `/admin/dashboard`.
pub proof fn lemma_checked_user_logged_in(form: FormData, checked: Result<Uuid, AuthError>, user_id: Uuid)
    requires
        checked == Ok::<Uuid, AuthError>(user_id),
    ensures
        login_step(form, LoginEvent::CredentialsChecked(checked)) == (
            LoginState::Done,
            LoginAction::Respond(SessionUpdate::LogIn(user_id), None, Reply::SeeOther(Location::AdminDashboard)),
        ),
{
}

/// A user stored with a hash that admits the password submitted is logged in:
/// the check of the submitted credentials gives the stored user's id, and the
/// login then records that user and leads to `/admin/dashboard`, whatever the
/// password looks like.
pub proof fn lemma_stored_password_logs_in(
    form: FormData,
    user_id: Uuid,
    hash: Seq<char>,
    checked: Result<Uuid, AuthError>,
)
    requires
        hash_admits(hash, encode_utf8(form.password@)),
        outcome_view(checked) == validation(form.password@, Ok(Some((user_id, hash)))),
    ensures
        login_step(form, LoginEvent::Submitted).1 == LoginAction::CheckCredentials(
            Credentials { username: form.username, password: form.password },
        ),
        login_step(form, LoginEvent::CredentialsChecked(checked)) == (
            LoginState::Done,
            LoginAction::Respond(SessionUpdate::LogIn(user_id), None, Reply::SeeOther(Location::AdminDashboard)),
        ),
{
    assert(validation(form.password@, Ok(Some((user_id, hash)))) == Ok::<Uuid, AuthFailure>(user_id));
    assert(checked == Ok::<Uuid, AuthError>(user_id));
}

/// Refused credentials leave the session as it was, flash "Authentication
/// failed" and lead back to `/login`.
pub proof fn lemma_refused_credentials_answered(form: FormData, reason: String)
    ensures
        login_step(form, LoginEvent::CredentialsChecked(Err(AuthError::InvalidCredentials(reason)))) == (
            LoginState::Done,
            LoginAction::Respond(
                SessionUpdate::Unchanged,
                Some(Notice::AuthenticationFailed),
                Reply::SeeOther(Location::Login),
            ),
        ),
{
}

/// A login records in the session exactly the user whose credentials checked
/// out, and any other outcome leaves the session's user as it was.
pub proof fn lemma_login_records_only_checked_user(
    form: FormData,
    event: LoginEvent,
    before: Option<Uuid>,
)
    requires
        login_step(form, event).1 is Respond,
    ensures
        login_step(form, event).1 matches LoginAction::Respond(update, _, _) && match event {
            LoginEvent::CredentialsChecked(Ok(user_id)) => session_user_after(before, update) == Some(user_id),
            _ => session_user_after(before, update) == before,
        },
{
}

} // verus!
