//! Changing the logged-in user's password: `POST /admin/password`.
//!
//! The handler alternates lookups with decisions, so it is written as a state
//! machine: `change_password` takes what just happened and says where the
//! request now stands and what to do next. The caller performs each action and
//! hands back its outcome as the next event.
use crate::authentication::{AuthError, Credentials};
use crate::reply::{Location, Notice, Reply};
use uuid::Uuid;
use vstd::prelude::*;

verus! {

/// The fields of the change-password form.
pub struct FormData {
    pub current_password: String,
    pub new_password: String,
    pub new_password_check: String,
}

/// Where a password change stands.
#[derive(Debug, Clone, Copy, PartialEq, Eq, Structural)]
pub enum PasswordChangeState {
    /// The form has arrived and nothing is checked yet.
    Received,
    /// The user's name is being looked up.
    AwaitingUsername,
    /// The current password is being checked.
    AwaitingCredentialCheck,
    /// The new password is being hashed and stored.
    AwaitingStore,
    /// The answer has been given.
    Done,
}

/// What happened since the last action.
#[derive(Debug)]
pub enum PasswordChangeEvent {
    /// The form was submitted.
    Submitted,
    /// The lookup of the user's name ended, with the name or the cause of its failure.
    UsernameFetched(Result<String, String>),
    /// The current password was checked.
    CredentialsChecked(Result<Uuid, AuthError>),
    /// The new password was hashed and stored, or the cause of the failure.
    PasswordStored(Result<(), String>),
}

/// What to do next.
pub enum PasswordChangeAction {
    /// Look up the name of the user with this id.
    FetchUsername(Uuid),
    /// Check these credentials against the user store.
    CheckCredentials(Credentials),
    /// Hash this password and store it for the user with this id.
    StorePassword(Uuid, String),
    /// Send the flash notice, if any, and answer with the reply.
    Respond(Option<Notice>, Reply),
}

/// Whether `event` is an outcome of the action that led to `state`.
pub open spec fn event_fits(state: PasswordChangeState, event: PasswordChangeEvent) -> bool {
    match state {
        PasswordChangeState::Received => event is Submitted,
        PasswordChangeState::AwaitingUsername => event is UsernameFetched,
        PasswordChangeState::AwaitingCredentialCheck => event is CredentialsChecked,
        PasswordChangeState::AwaitingStore => event is PasswordStored,
        PasswordChangeState::Done => false,
    }
}

/// A new password must be longer than 12 and shorter than 129 characters.
pub open spec fn new_password_length_ok(password: Seq<char>) -> bool {
    12 < password.len() && password.len() < 129
}

/// Redirect back to the form with a flash notice.
pub open spec fn back_to_form(notice: Notice) -> PasswordChangeAction {
    PasswordChangeAction::Respond(Some(notice), Reply::SeeOther(Location::AdminPassword))
}

/// Answer `500 Internal Server Error` with the cause.
pub open spec fn fail(cause: String) -> PasswordChangeAction {
    PasswordChangeAction::Respond(None, Reply::ServerError(cause))
}

/// One step of a password change for the user `user_id`, who submitted `form`.
pub open spec fn password_change_step(
    form: FormData,
    user_id: Uuid,
    event: PasswordChangeEvent,
) -> (PasswordChangeState, PasswordChangeAction) {
    match event {
        PasswordChangeEvent::Submitted => if form.new_password@ != form.new_password_check@ {
            (PasswordChangeState::Done, back_to_form(Notice::PasswordFieldsDiffer))
        } else {
            (PasswordChangeState::AwaitingUsername, PasswordChangeAction::FetchUsername(user_id))
        },
        PasswordChangeEvent::UsernameFetched(Err(cause)) => (PasswordChangeState::Done, fail(cause)),
        PasswordChangeEvent::UsernameFetched(Ok(username)) => (
            PasswordChangeState::AwaitingCredentialCheck,
            PasswordChangeAction::CheckCredentials(
                Credentials { username, password: form.current_password },
            ),
        ),
        PasswordChangeEvent::CredentialsChecked(Err(AuthError::InvalidCredentials(_))) => (
            PasswordChangeState::Done,
            back_to_form(Notice::CurrentPasswordIncorrect),
        ),
        PasswordChangeEvent::CredentialsChecked(Err(AuthError::UnexpectedError(cause))) => (
            PasswordChangeState::Done,
            fail(cause),
        ),
        PasswordChangeEvent::CredentialsChecked(Ok(_)) => if !new_password_length_ok(
            form.new_password@,
        ) {
            (PasswordChangeState::Done, back_to_form(Notice::NewPasswordLength))
        } else {
            (
                PasswordChangeState::AwaitingStore,
                PasswordChangeAction::StorePassword(user_id, form.new_password),
            )
        },
        PasswordChangeEvent::PasswordStored(Err(cause)) => (PasswordChangeState::Done, fail(cause)),
        PasswordChangeEvent::PasswordStored(Ok(_)) => (
            PasswordChangeState::Done,
            back_to_form(Notice::PasswordChanged),
        ),
    }
}

/// Decides the next step of a password change for the logged-in user
/// `user_id`, who submitted `form`: the new password fields must agree, the
/// current password must check out, and the new password must be longer than
/// 12 and shorter than 129 characters before it is stored. The event alone
/// decides the step; the state returned says what the caller awaits next.
pub fn change_password(
    form: &FormData,
    user_id: Uuid,
    event: PasswordChangeEvent,
) -> (r: (PasswordChangeState, PasswordChangeAction))
    ensures
        r == password_change_step(*form, user_id, event),
        event matches PasswordChangeEvent::CredentialsChecked(Ok(_)) ==> (12 < form.new_password@.len() < 129
            <==> r == (
            PasswordChangeState::AwaitingStore,
            PasswordChangeAction::StorePassword(user_id, form.new_password),
        )),
{
    match event {
        PasswordChangeEvent::Submitted => {
            if !(form.new_password == form.new_password_check) {
                (
                    PasswordChangeState::Done,
                    PasswordChangeAction::Respond(
                        Some(Notice::PasswordFieldsDiffer),
                        Reply::SeeOther(Location::AdminPassword),
                    ),
                )
            } else {
                (PasswordChangeState::AwaitingUsername, PasswordChangeAction::FetchUsername(user_id))
            }
        },
        PasswordChangeEvent::UsernameFetched(Err(cause)) => (
            PasswordChangeState::Done,
            PasswordChangeAction::Respond(None, Reply::ServerError(cause)),
        ),
        PasswordChangeEvent::UsernameFetched(Ok(username)) => (
            PasswordChangeState::AwaitingCredentialCheck,
            PasswordChangeAction::CheckCredentials(
                Credentials { username, password: form.current_password.clone() },
            ),
        ),
        PasswordChangeEvent::CredentialsChecked(Err(AuthError::InvalidCredentials(_))) => (
            PasswordChangeState::Done,
            PasswordChangeAction::Respond(
                Some(Notice::CurrentPasswordIncorrect),
                Reply::SeeOther(Location::AdminPassword),
            ),
        ),
        PasswordChangeEvent::CredentialsChecked(Err(AuthError::UnexpectedError(cause))) => (
            PasswordChangeState::Done,
            PasswordChangeAction::Respond(None, Reply::ServerError(cause)),
        ),
        PasswordChangeEvent::CredentialsChecked(Ok(_)) => {
            let length = form.new_password.as_str().unicode_len();
            if length <= 12 || length >= 129 {
                (
                    PasswordChangeState::Done,
                    PasswordChangeAction::Respond(
                        Some(Notice::NewPasswordLength),
                        Reply::SeeOther(Location::AdminPassword),
                    ),
                )
            } else {
                (
                    PasswordChangeState::AwaitingStore,
                    PasswordChangeAction::StorePassword(user_id, form.new_password.clone()),
                )
            }
        },
        PasswordChangeEvent::PasswordStored(Err(cause)) => (
            PasswordChangeState::Done,
            PasswordChangeAction::Respond(None, Reply::ServerError(cause)),
        ),
        PasswordChangeEvent::PasswordStored(Ok(_)) => (
            PasswordChangeState::Done,
            PasswordChangeAction::Respond(
                Some(Notice::PasswordChanged),
                Reply::SeeOther(Location::AdminPassword),
            ),
        ),
    }
}

/// Once the current password has checked out, a new password longer than 12
/// and shorter than 129 characters is always stored, as typed, for the user
/// who asked, whatever characters it holds; one of another length is refused
/// with the notice on its length.
pub proof fn lemma_valid_new_password_is_stored(form: FormData, user_id: Uuid, checked_id: Uuid)
    ensures
        12 < form.new_password@.len() < 129 ==> password_change_step(
            form,
            user_id,
            PasswordChangeEvent::CredentialsChecked(Ok(checked_id)),
        ) == (PasswordChangeState::AwaitingStore, PasswordChangeAction::StorePassword(user_id, form.new_password)),
        !(12 < form.new_password@.len() < 129) ==> password_change_step(
            form,
            user_id,
            PasswordChangeEvent::CredentialsChecked(Ok(checked_id)),
        ) == (
            PasswordChangeState::Done,
            PasswordChangeAction::Respond(Some(Notice::NewPasswordLength), Reply::SeeOther(Location::AdminPassword)),
        ),
{
}

/// A password change whose fields agree, whose current password checks out
/// and whose new password is longer than 12 and shorter than 129 characters
/// runs to the end: it looks up the user's name, checks the current password
/// under that name, stores the new password for the user, and answers with
/// "Your password has been changed." on the form.
pub proof fn lemma_valid_change_completes(form: FormData, user_id: Uuid, username: String)
    requires
        form.new_password@ == form.new_password_check@,
        12 < form.new_password@.len() < 129,
    ensures
        ({
            let events = seq![
                PasswordChangeEvent::Submitted,
                PasswordChangeEvent::UsernameFetched(Ok(username)),
                PasswordChangeEvent::CredentialsChecked(Ok(user_id)),
                PasswordChangeEvent::PasswordStored(Ok(())),
            ];
            &&& run_fits(form, user_id, events)
            &&& password_change_run(form, user_id, events) == (
                PasswordChangeState::Done,
                seq![
                    PasswordChangeAction::FetchUsername(user_id),
                    PasswordChangeAction::CheckCredentials(
                        Credentials { username, password: form.current_password },
                    ),
                    PasswordChangeAction::StorePassword(user_id, form.new_password),
                    PasswordChangeAction::Respond(
                        Some(Notice::PasswordChanged),
                        Reply::SeeOther(Location::AdminPassword),
                    ),
                ],
            )
        }),
{
    let events = seq![
        PasswordChangeEvent::Submitted,
        PasswordChangeEvent::UsernameFetched(Ok(username)),
        PasswordChangeEvent::CredentialsChecked(Ok(user_id)),
        PasswordChangeEvent::PasswordStored(Ok(())),
    ];
    assert(events.drop_last().drop_last().drop_last().drop_last() =~= Seq::<PasswordChangeEvent>::empty());
    assert(events.drop_last().drop_last().drop_last() =~= seq![PasswordChangeEvent::Submitted]);
    assert(events.drop_last().drop_last() =~= seq![
        PasswordChangeEvent::Submitted,
        PasswordChangeEvent::UsernameFetched(Ok(username)),
    ]);
    assert(events.drop_last() =~= seq![
        PasswordChangeEvent::Submitted,
        PasswordChangeEvent::UsernameFetched(Ok(username)),
        PasswordChangeEvent::CredentialsChecked(Ok(user_id)),
    ]);
    reveal_with_fuel(password_change_run, 5);
    reveal_with_fuel(run_fits, 5);
    assert(password_change_run(form, user_id, events).1 =~= seq![
        PasswordChangeAction::FetchUsername(user_id),
        PasswordChangeAction::CheckCredentials(Credentials { username, password: form.current_password }),
        PasswordChangeAction::StorePassword(user_id, form.new_password),
        PasswordChangeAction::Respond(Some(Notice::PasswordChanged), Reply::SeeOther(Location::AdminPassword)),
    ]);
}

/// The state reached and the actions taken after `events`, from a received form.
pub open spec fn password_change_run(form: FormData, user_id: Uuid, events: Seq<PasswordChangeEvent>) -> (
    PasswordChangeState,
    Seq<PasswordChangeAction>,
)
    decreases events.len(),
{
    if events.len() == 0 {
        (PasswordChangeState::Received, Seq::empty())
    } else {
        let before = password_change_run(form, user_id, events.drop_last());
        let step = password_change_step(form, user_id, events.last());
        (step.0, before.1.push(step.1))
    }
}

/// Each of `events` is an outcome of the action taken just before it.
pub open spec fn run_fits(form: FormData, user_id: Uuid, events: Seq<PasswordChangeEvent>) -> bool
    decreases events.len(),
{
    events.len() == 0 || (run_fits(form, user_id, events.drop_last()) && event_fits(
        password_change_run(form, user_id, events.drop_last()).0,
        events.last(),
    ))
}

proof fn lemma_run_facts(form: FormData, user_id: Uuid, events: Seq<PasswordChangeEvent>)
    requires
        run_fits(form, user_id, events),
    ensures
        ({
            let (state, actions) = password_change_run(form, user_id, events);
            &&& actions.len() == events.len()
            &&& (state == PasswordChangeState::Received) == (events.len() == 0)
            &&& (state is AwaitingUsername || state is AwaitingCredentialCheck || state is AwaitingStore)
                ==> form.new_password@ == form.new_password_check@
            &&& forall|i: int| 0 <= i < actions.len() && #[trigger] actions[i] is Respond
                ==> i == actions.len() - 1 && state == PasswordChangeState::Done
            &&& forall|i: int| 0 <= i < actions.len() && #[trigger] actions[i] is StorePassword ==> {
                &&& actions[i] == PasswordChangeAction::StorePassword(user_id, form.new_password)
                &&& form.new_password@ == form.new_password_check@
                &&& new_password_length_ok(form.new_password@)
                &&& events[i] matches PasswordChangeEvent::CredentialsChecked(Ok(_))
            }
        }),
    decreases events.len(),
{
    if events.len() > 0 {
        let prefix = events.drop_last();
        lemma_run_facts(form, user_id, prefix);
        let (state, actions) = password_change_run(form, user_id, events);
        let before = password_change_run(form, user_id, prefix);
        assert forall|i: int| 0 <= i < actions.len() - 1 implies actions[i] == before.1[i] && events[i] == prefix[i] by {}
    }
}

/// A new password is stored only for the user who asked, only as the password
/// they typed twice, only when it is longer than 12 and shorter than 129
/// characters, and only right after their current password checked out.
pub proof fn lemma_password_stored_only_after_checks(
    form: FormData,
    user_id: Uuid,
    events: Seq<PasswordChangeEvent>,
    i: int,
)
    requires
        run_fits(form, user_id, events),
        0 <= i < events.len(),
        password_change_run(form, user_id, events).1[i] is StorePassword,
    ensures
        password_change_run(form, user_id, events).1[i] == PasswordChangeAction::StorePassword(
            user_id,
            form.new_password,
        ),
        form.new_password@ == form.new_password_check@,
        new_password_length_ok(form.new_password@),
        events[i] matches PasswordChangeEvent::CredentialsChecked(Ok(_)),
{
    lemma_run_facts(form, user_id, events);
}

/// A password change answers once and then stops: a response is the last
/// action of a run, and after it no event is expected.
pub proof fn lemma_response_ends_run(
    form: FormData,
    user_id: Uuid,
    events: Seq<PasswordChangeEvent>,
    i: int,
    next: PasswordChangeEvent,
)
    requires
        run_fits(form, user_id, events),
        0 <= i < events.len(),
        password_change_run(form, user_id, events).1[i] is Respond,
    ensures
        i == events.len() - 1,
        !event_fits(password_change_run(form, user_id, events).0, next),
{
    lemma_run_facts(form, user_id, events);
}

} // verus!
