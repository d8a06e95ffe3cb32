//! Logging out: `POST /admin/logout`.
use crate::reply::{Location, Notice, Reply, SessionUpdate};
use crate::routes::admin_dashboard::{dashboard_step, DashboardAction, DashboardEvent, DashboardState};
use crate::reply::session_user_after;
use uuid::Uuid;
use vstd::prelude::*;

verus! {

/// What logging out does, given the session read: the logged-in user's id,
/// if any, or the cause of the failure to read it.
pub open spec fn log_out_step(session: Result<Option<Uuid>, String>) -> (SessionUpdate, Option<Notice>, Reply) {
    match session {
        Err(cause) => (SessionUpdate::Unchanged, None, Reply::ServerError(cause)),
        Ok(None) => (SessionUpdate::Unchanged, None, Reply::SeeOther(Location::Login)),
        Ok(Some(_)) => (SessionUpdate::LogOut, Some(Notice::LoggedOut), Reply::SeeOther(Location::Login)),
    }
}

/// Logs the user out: the session is purged, the notice "You have
/// successfully logged out." is sent, and the user goes to `/login`. Someone
/// not logged in is simply sent to `/login`.
pub fn log_out(session: Result<Option<Uuid>, String>) -> (r: (SessionUpdate, Option<Notice>, Reply))
    ensures
        r == log_out_step(session),
        session matches Ok(Some(_)) ==> r == (
            SessionUpdate::LogOut,
            Some(Notice::LoggedOut),
            Reply::SeeOther(Location::Login),
        ),
{
    match session {
        Err(cause) => (SessionUpdate::Unchanged, None, Reply::ServerError(cause)),
        Ok(None) => (SessionUpdate::Unchanged, None, Reply::SeeOther(Location::Login)),
        Ok(Some(_)) => (SessionUpdate::LogOut, Some(Notice::LoggedOut), Reply::SeeOther(Location::Login)),
    }
}

/// Logging out clears the session's user, so the dashboard afterwards sends
/// the visitor to `/login`.
pub proof fn lemma_logout_clears_session(user_id: Uuid)
    ensures
        ({
            let (update, _, _) = log_out_step(Ok(Some(user_id)));
            &&& session_user_after(Some(user_id), update) == None::<Uuid>
            &&& dashboard_step(DashboardEvent::SessionRead(Ok(session_user_after(Some(user_id), update))))
                == (DashboardState::Done, DashboardAction::Respond(Reply::SeeOther(Location::Login)))
        }),
{
}

/// Whoever is logged in is logged out: the session is purged, the notice "You
/// have successfully logged out." is flashed and the answer leads to
/// `/login`; a visitor not logged in is sent to `/login` with the session left
/// as it was.
pub proof fn lemma_logout_of_any_user(session: Result<Option<Uuid>, String>)
    ensures
        session matches Ok(Some(_)) ==> log_out_step(session) == (
            SessionUpdate::LogOut,
            Some(Notice::LoggedOut),
            Reply::SeeOther(Location::Login),
        ),
        session matches Ok(None) ==> log_out_step(session) == (
            SessionUpdate::Unchanged,
            None::<Notice>,
            Reply::SeeOther(Location::Login),
        ),
        session is Err ==> log_out_step(session).0 == SessionUpdate::Unchanged,
{
}

} // verus!
