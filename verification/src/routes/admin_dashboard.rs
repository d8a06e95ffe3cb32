//! The admin dashboard: `GET /admin/dashboard`.
//!
//! The handler reads the session, then looks up the user's name, deciding in
//! between; `admin_dashboard` takes what just happened and says where the
//! request now stands and what to do next.
use crate::reply::{dashboard_html, welcome, Location, Page, Reply};
use crate::routes::admin_access::admission;
use uuid::Uuid;
use vstd::prelude::*;

verus! {

/// Where a dashboard request stands.
#[derive(Debug, Clone, Copy, PartialEq, Eq, Structural)]
pub enum DashboardState {
    /// The session is being read.
    AwaitingSession,
    /// The logged-in user's name is being looked up.
    AwaitingUsername,
    /// The answer has been given.
    Done,
}

/// What happened since the last action.
#[derive(Debug)]
pub enum DashboardEvent {
    /// The session was read: the logged-in user's id, if any, or the cause of the failure.
    SessionRead(Result<Option<Uuid>, String>),
    /// The user's name was looked up, or the cause of the failure.
    UsernameFetched(Result<String, String>),
}

/// What to do next.
#[derive(Debug)]
pub enum DashboardAction {
    /// Look up the name of the user with this id.
    FetchUsername(Uuid),
    /// Answer with the reply.
    Respond(Reply),
}

/// One step of a dashboard request.
pub open spec fn dashboard_step(event: DashboardEvent) -> (DashboardState, DashboardAction) {
    match event {
        DashboardEvent::SessionRead(Err(cause)) => (
            DashboardState::Done,
            DashboardAction::Respond(Reply::ServerError(cause)),
        ),
        DashboardEvent::SessionRead(Ok(None)) => (
            DashboardState::Done,
            DashboardAction::Respond(Reply::SeeOther(Location::Login)),
        ),
        DashboardEvent::SessionRead(Ok(Some(user_id))) => (
            DashboardState::AwaitingUsername,
            DashboardAction::FetchUsername(user_id),
        ),
        DashboardEvent::UsernameFetched(Err(cause)) => (
            DashboardState::Done,
            DashboardAction::Respond(Reply::ServerError(cause)),
        ),
        DashboardEvent::UsernameFetched(Ok(username)) => (
            DashboardState::Done,
            DashboardAction::Respond(Reply::Page(Page::AdminDashboard(username))),
        ),
    }
}

/// Decides the next step of a dashboard request: a visitor who is not logged
/// in is sent to `/login`; a logged-in user gets the dashboard greeting them by
/// name. The event alone decides the step; the state returned says what the
/// caller awaits next.
pub fn admin_dashboard(event: DashboardEvent) -> (r: (DashboardState, DashboardAction))
    ensures
        r == dashboard_step(event),
        event matches DashboardEvent::SessionRead(Ok(Some(user_id))) ==> r == (
            DashboardState::AwaitingUsername,
            DashboardAction::FetchUsername(user_id),
        ),
        event matches DashboardEvent::SessionRead(Ok(None)) ==> r == (
            DashboardState::Done,
            DashboardAction::Respond(Reply::SeeOther(Location::Login)),
        ),
        event matches DashboardEvent::UsernameFetched(Ok(username)) ==> r == (
            DashboardState::Done,
            DashboardAction::Respond(Reply::Page(Page::AdminDashboard(username))),
        ),
{
    match event {
        DashboardEvent::SessionRead(Err(cause)) => (
            DashboardState::Done,
            DashboardAction::Respond(Reply::ServerError(cause)),
        ),
        DashboardEvent::SessionRead(Ok(None)) => (
            DashboardState::Done,
            DashboardAction::Respond(Reply::SeeOther(Location::Login)),
        ),
        DashboardEvent::SessionRead(Ok(Some(user_id))) => (
            DashboardState::AwaitingUsername,
            DashboardAction::FetchUsername(user_id),
        ),
        DashboardEvent::UsernameFetched(Err(cause)) => (
            DashboardState::Done,
            DashboardAction::Respond(Reply::ServerError(cause)),
        ),
        DashboardEvent::UsernameFetched(Ok(username)) => (
            DashboardState::Done,
            DashboardAction::Respond(Reply::Page(Page::AdminDashboard(username))),
        ),
    }
}

/// The dashboard served to a user holds the greeting `Welcome {username}!`.
pub proof fn lemma_dashboard_greets_user(username: Seq<char>)
    ensures
        ({
            let html = dashboard_html(username);
            let start = crate::reply::dashboard_head().len() as int;
            html.subrange(start, start + welcome(username).len()) == welcome(username)
        }),
{
    let html = dashboard_html(username);
    let start = crate::reply::dashboard_head().len() as int;
    assert(html.subrange(start, start + welcome(username).len()) =~= welcome(username));
}

/// The dashboard lets in exactly whom the admin area admits: it looks up the
/// name of the admitted user, and otherwise answers as the admin area does.
/// The name found is the one the dashboard greets.
pub proof fn lemma_dashboard_follows_admission(session: Result<Option<Uuid>, String>, username: String)
    ensures
        admission(session) matches Ok(user_id) ==> dashboard_step(DashboardEvent::SessionRead(session)) == (
            DashboardState::AwaitingUsername,
            DashboardAction::FetchUsername(user_id),
        ),
        admission(session) matches Err(reply) ==> dashboard_step(DashboardEvent::SessionRead(session)) == (
            DashboardState::Done,
            DashboardAction::Respond(reply),
        ),
        dashboard_step(DashboardEvent::UsernameFetched(Ok(username))) == (
            DashboardState::Done,
            DashboardAction::Respond(Reply::Page(Page::AdminDashboard(username))),
        ),
{
}

} // verus!
