//! Access to the admin area: only logged-in users get in.
use crate::reply::{Location, Reply};
use uuid::Uuid;
use vstd::prelude::*;

verus! {

/// What becomes of a request for the admin area, given the session read: the logged-in
/// user's id, if any, or the cause of the failure to read it.
pub open spec fn admission(session: Result<Option<Uuid>, String>) -> Result<Uuid, Reply> {
    match session {
        Err(cause) => Err(Reply::ServerError(cause)),
        Ok(None) => Err(Reply::SeeOther(Location::Login)),
        Ok(Some(user_id)) => Ok(user_id),
    }
}

/// Lets a logged-in user in, giving their id to the handlers of
/// the admin area; anyone else is sent to `/login`.
pub fn admit_to_admin_area(session: Result<Option<Uuid>, String>) -> (r: Result<Uuid, Reply>)
    ensures
        r == admission(session),
        session matches Ok(Some(user_id)) ==> r == Ok::<Uuid, Reply>(user_id),
        session matches Ok(None) ==> r == Err::<Uuid, Reply>(Reply::SeeOther(Location::Login)),
{
    match session {
        Err(cause) => Err(Reply::ServerError(cause)),
        Ok(None) => Err(Reply::SeeOther(Location::Login)),
        Ok(Some(user_id)) => Ok(user_id),
    }
}

/// Exactly the logged-in users get into the admin area, each under their own
/// id; a visitor without a logged-in user is sent to `/login`, and a session
/// that cannot be read is a server error.
pub proof fn lemma_admits_exactly_logged_in_users(session: Result<Option<Uuid>, String>)
    ensures
        admission(session) is Ok <==> session matches Ok(Some(_)),
        session matches Ok(Some(user_id)) ==> admission(session) == Ok::<Uuid, Reply>(user_id),
        session is Ok && !(session matches Ok(Some(_))) ==> admission(session) == Err::<Uuid, Reply>(
            Reply::SeeOther(Location::Login),
        ),
        session matches Err(cause) ==> admission(session) == Err::<Uuid, Reply>(Reply::ServerError(cause)),
{
}

} // verus!
