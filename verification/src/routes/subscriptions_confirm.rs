//! Confirming a pending subscription: `GET /subscriptions/confirm`.
//!
//! The handler looks up the token, then marks the subscriber as confirmed,
//! deciding in between; `confirm` takes what just happened and says where
//! the request now stands and what to do next.
use crate::reply::{reply_status, Reply};
use uuid::Uuid;
use vstd::prelude::*;

verus! {

/// The query parameters of a confirmation link.
pub struct Parameters {
    pub subscription_token: String,
}

/// The step of a confirmation that failed unexpectedly.
#[derive(Debug, Clone, Copy, PartialEq, Eq, Structural)]
pub enum ConfirmStage {
    /// Looking up the subscriber that the token belongs to.
    TokenLookup,
    /// Marking the subscriber as confirmed.
    StatusUpdate,
}

/// The message that heads an unexpected failure at a stage.
pub open spec fn confirm_stage_text(stage: ConfirmStage) -> Seq<char> {
    match stage {
        ConfirmStage::TokenLookup => "Failed to retrieve subscriber id associated with the provided token."@,
        ConfirmStage::StatusUpdate => "Failed to update status to `confirmed`."@,
    }
}

impl ConfirmStage {
    /// The message that heads an unexpected failure at this stage.
    pub fn message(&self) -> (r: &'static str)
        ensures
            r@ == confirm_stage_text(*self),
    {
        match self {
            ConfirmStage::TokenLookup => "Failed to retrieve subscriber id associated with the provided token.",
            ConfirmStage::StatusUpdate => "Failed to update status to `confirmed`.",
        }
    }
}

/// Why a confirmation failed.
#[derive(Debug)]
pub enum ConfirmError {
    /// No subscriber is associated with the token.
    UnknownToken,
    /// A lookup or an update failed; carries the stage that failed and the cause.
    UnexpectedError(ConfirmStage, String),
}

/// The status code answered for a confirmation error.
pub open spec fn confirm_error_status(e: ConfirmError) -> u16 {
    match e {
        ConfirmError::UnknownToken => 401,
        ConfirmError::UnexpectedError(..) => 500,
    }
}

impl ConfirmError {
    /// `401 Unauthorized` for an unknown token, `500 Internal Server Error` otherwise.
    pub fn status_code(&self) -> (r: u16)
        ensures
            r == confirm_error_status(*self),
    {
        match self {
            ConfirmError::UnknownToken => 401,
            ConfirmError::UnexpectedError(..) => 500,
        }
    }
}

/// Where a confirmation stands.
#[derive(Debug, Clone, Copy, PartialEq, Eq, Structural)]
pub enum ConfirmState {
    /// The request has arrived.
    Received,
    /// The token is being looked up.
    AwaitingLookup,
    /// The subscriber is being marked as confirmed.
    AwaitingUpdate,
    /// The answer has been given.
    Done,
}

/// What happened since the last action.
#[derive(Debug)]
pub enum ConfirmEvent {
    /// The request arrived.
    Requested,
    /// The token was looked up: the subscriber's id, if any, or the cause of the failure.
    TokenLookedUp(Result<Option<Uuid>, String>),
    /// The subscriber was marked as confirmed, or the cause of the failure.
    SubscriberMarked(Result<(), String>),
}

/// What to do next.
#[derive(Debug)]
pub enum ConfirmAction {
    /// Look up the subscriber that this token belongs to.
    LookUpToken(String),
    /// Mark the subscriber with this id as confirmed.
    MarkConfirmed(Uuid),
    /// Answer with the reply, or with the error.
    Respond(Result<Reply, ConfirmError>),
}

/// One step of a confirmation of the link with `parameters`.
pub open spec fn confirm_step(parameters: Parameters, event: ConfirmEvent) -> (ConfirmState, ConfirmAction) {
    match event {
        ConfirmEvent::Requested => (
            ConfirmState::AwaitingLookup,
            ConfirmAction::LookUpToken(parameters.subscription_token),
        ),
        ConfirmEvent::TokenLookedUp(Err(cause)) => (
            ConfirmState::Done,
            ConfirmAction::Respond(Err(ConfirmError::UnexpectedError(ConfirmStage::TokenLookup, cause))),
        ),
        ConfirmEvent::TokenLookedUp(Ok(None)) => (
            ConfirmState::Done,
            ConfirmAction::Respond(Err(ConfirmError::UnknownToken)),
        ),
        ConfirmEvent::TokenLookedUp(Ok(Some(id))) => (
            ConfirmState::AwaitingUpdate,
            ConfirmAction::MarkConfirmed(id),
        ),
        ConfirmEvent::SubscriberMarked(Err(cause)) => (
            ConfirmState::Done,
            ConfirmAction::Respond(Err(ConfirmError::UnexpectedError(ConfirmStage::StatusUpdate, cause))),
        ),
        ConfirmEvent::SubscriberMarked(Ok(_)) => (
            ConfirmState::Done,
            ConfirmAction::Respond(Ok(Reply::Empty)),
        ),
    }
}

/// Decides the next step of confirming the link with `parameters`: the
/// subscriber that the token belongs to is marked as confirmed; an unknown
/// token is refused. The event alone decides the step; the state returned
/// says what the caller awaits next.
pub fn confirm(parameters: &Parameters, event: ConfirmEvent) -> (r: (ConfirmState, ConfirmAction))
    ensures
        r == confirm_step(*parameters, event),
        event is Requested ==> r == (
            ConfirmState::AwaitingLookup,
            ConfirmAction::LookUpToken(parameters.subscription_token),
        ),
        r.1 matches ConfirmAction::Respond(Err(ConfirmError::UnknownToken)) ==> event
            == ConfirmEvent::TokenLookedUp(Ok(None)),
{
    match event {
        ConfirmEvent::Requested => (
            ConfirmState::AwaitingLookup,
            ConfirmAction::LookUpToken(parameters.subscription_token.clone()),
        ),
        ConfirmEvent::TokenLookedUp(Err(cause)) => (
            ConfirmState::Done,
            ConfirmAction::Respond(Err(ConfirmError::UnexpectedError(ConfirmStage::TokenLookup, cause))),
        ),
        ConfirmEvent::TokenLookedUp(Ok(None)) => (
            ConfirmState::Done,
            ConfirmAction::Respond(Err(ConfirmError::UnknownToken)),
        ),
        ConfirmEvent::TokenLookedUp(Ok(Some(id))) => (
            ConfirmState::AwaitingUpdate,
            ConfirmAction::MarkConfirmed(id),
        ),
        ConfirmEvent::SubscriberMarked(Err(cause)) => (
            ConfirmState::Done,
            ConfirmAction::Respond(Err(ConfirmError::UnexpectedError(ConfirmStage::StatusUpdate, cause))),
        ),
        ConfirmEvent::SubscriberMarked(Ok(_)) => (
            ConfirmState::Done,
            ConfirmAction::Respond(Ok(Reply::Empty)),
        ),
    }
}

/// A confirmation request always looks up exactly the token it carries,
/// whatever that token is: no token is refused before it is looked up.
pub proof fn lemma_request_looks_up_its_token(parameters: Parameters)
    ensures
        confirm_step(parameters, ConfirmEvent::Requested) == (
            ConfirmState::AwaitingLookup,
            ConfirmAction::LookUpToken(parameters.subscription_token),
        ),
{
}

/// An unknown token is answered only after the lookup of the token found no
/// subscriber.
pub proof fn lemma_unknown_token_only_after_empty_lookup(parameters: Parameters, event: ConfirmEvent)
    requires
        confirm_step(parameters, event).1 matches ConfirmAction::Respond(Err(ConfirmError::UnknownToken)),
    ensures
        event == ConfirmEvent::TokenLookedUp(Ok(None)),
{
}

/// The link of a pending subscriber confirms it: the token is looked up, the
/// subscriber found for it is marked as confirmed, and once that is done the
/// answer is `200 OK`.
pub proof fn lemma_known_token_confirms(parameters: Parameters, id: Uuid)
    ensures
        confirm_step(parameters, ConfirmEvent::Requested).1 == ConfirmAction::LookUpToken(
            parameters.subscription_token,
        ),
        confirm_step(parameters, ConfirmEvent::TokenLookedUp(Ok(Some(id)))) == (
            ConfirmState::AwaitingUpdate,
            ConfirmAction::MarkConfirmed(id),
        ),
        confirm_step(parameters, ConfirmEvent::SubscriberMarked(Ok(()))) == (
            ConfirmState::Done,
            ConfirmAction::Respond(Ok(Reply::Empty)),
        ),
        reply_status(Reply::Empty) == 200,
{
}

/// A token that belongs to no subscriber is answered `401 Unauthorized`, and
/// no subscriber is marked as confirmed for it.
pub proof fn lemma_unknown_token_unauthorized(parameters: Parameters)
    ensures
        ({
            let (state, action) = confirm_step(parameters, ConfirmEvent::TokenLookedUp(Ok(None)));
            &&& state == ConfirmState::Done
            &&& action matches ConfirmAction::Respond(Err(e)) && confirm_error_status(e) == 401
        }),
{
}

/// The only subscriber ever marked as confirmed is the one the token lookup returned.
pub proof fn lemma_marks_only_looked_up_subscriber(parameters: Parameters, event: ConfirmEvent, id: Uuid)
    requires
        confirm_step(parameters, event).1 == ConfirmAction::MarkConfirmed(id),
    ensures
        event == ConfirmEvent::TokenLookedUp(Ok(Some(id))),
{
}

} // verus!
