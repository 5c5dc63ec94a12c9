//! Decisions of the accept loop and of the per-connection life cycle.
use vstd::prelude::*;

verus! {

/// What one accept attempt produced.
#[derive(Clone, Copy, Debug, PartialEq, Eq, Structural)]
pub enum AcceptOutcome {
    /// A connection was established.
    Accepted,
    /// The attempt failed but the listener is still usable.
    TransientError,
    /// The listener is closed: no further connection will come.
    ListenerClosed,
}

/// What the accept loop does next.
#[derive(Clone, Copy, Debug, PartialEq, Eq, Structural)]
pub enum LoopAction {
    /// Hand the connection to its handler, then accept again.
    Handle,
    /// Record the failure and accept again.
    LogAndContinue,
    /// Leave the loop.
    Stop,
}

/// The action that the accept loop takes after an accept attempt.
pub open spec fn action_of(outcome: AcceptOutcome) -> LoopAction {
    match outcome {
        AcceptOutcome::Accepted => LoopAction::Handle,
        AcceptOutcome::TransientError => LoopAction::LogAndContinue,
        AcceptOutcome::ListenerClosed => LoopAction::Stop,
    }
}

/// Decides what the accept loop does after an accept attempt: only a closed
/// listener ends the loop.
pub fn next_action(outcome: AcceptOutcome) -> (r: LoopAction)
    ensures
        r == action_of(outcome),
        r == LoopAction::Stop <==> outcome == AcceptOutcome::ListenerClosed,
{
    match outcome {
        AcceptOutcome::Accepted => LoopAction::Handle,
        AcceptOutcome::TransientError => LoopAction::LogAndContinue,
        AcceptOutcome::ListenerClosed => LoopAction::Stop,
    }
}

/// Stages of one connection.
#[derive(Clone, Copy, Debug, PartialEq, Eq, Structural)]
pub enum ConnectionStage {
    Accepted,
    Reading,
    Matched,
    Unmatched,
    Malformed,
    Responding,
    Closed,
}

/// What happened at the current stage of a connection.
#[derive(Clone, Copy, Debug, PartialEq, Eq, Structural)]
pub enum ConnectionEvent {
    /// The stage's work finished without error.
    Done,
    /// Reading the request ended with the head; carries its route.
    Routed(crate::http::Route),
    /// Reading or writing failed.
    Failed,
}

/// The stage that follows `stage` on `event`. Every failure closes the
/// connection, and a closed connection stays closed.
pub open spec fn stage_after(stage: ConnectionStage, event: ConnectionEvent) -> ConnectionStage {
    match (stage, event) {
        (ConnectionStage::Closed, _) => ConnectionStage::Closed,
        (_, ConnectionEvent::Failed) => ConnectionStage::Closed,
        (ConnectionStage::Accepted, _) => ConnectionStage::Reading,
        (ConnectionStage::Reading, ConnectionEvent::Routed(crate::http::Route::Index)) => ConnectionStage::Matched,
        (ConnectionStage::Reading, ConnectionEvent::Routed(crate::http::Route::NotFound)) => ConnectionStage::Unmatched,
        (ConnectionStage::Reading, ConnectionEvent::Routed(crate::http::Route::Malformed)) => ConnectionStage::Malformed,
        (ConnectionStage::Reading, ConnectionEvent::Done) => ConnectionStage::Malformed,
        (ConnectionStage::Responding, _) => ConnectionStage::Closed,
        (_, _) => ConnectionStage::Responding,
    }
}

/// Advances a connection by one stage.
pub fn advance(stage: ConnectionStage, event: ConnectionEvent) -> (r: ConnectionStage)
    ensures
        r == stage_after(stage, event),
{
    match (stage, event) {
        (ConnectionStage::Closed, _) => ConnectionStage::Closed,
        (_, ConnectionEvent::Failed) => ConnectionStage::Closed,
        (ConnectionStage::Accepted, _) => ConnectionStage::Reading,
        (ConnectionStage::Reading, ConnectionEvent::Routed(route)) => match route {
            crate::http::Route::Index => ConnectionStage::Matched,
            crate::http::Route::NotFound => ConnectionStage::Unmatched,
            crate::http::Route::Malformed => ConnectionStage::Malformed,
        },
        (ConnectionStage::Reading, ConnectionEvent::Done) => ConnectionStage::Malformed,
        (ConnectionStage::Responding, _) => ConnectionStage::Closed,
        (_, _) => ConnectionStage::Responding,
    }
}

/// A connection that succeeds at every stage goes from `Accepted` through
/// reading, its route's branch and responding to `Closed`; a failure at any
/// stage closes it at once.
pub proof fn lemma_connection_closes(route: crate::http::Route)
    ensures
        stage_after(
            stage_after(
                stage_after(
                    stage_after(ConnectionStage::Accepted, ConnectionEvent::Done),
                    ConnectionEvent::Routed(route),
                ),
                ConnectionEvent::Done,
            ),
            ConnectionEvent::Done,
        ) == ConnectionStage::Closed,
        forall|s: ConnectionStage| stage_after(s, ConnectionEvent::Failed) == ConnectionStage::Closed,
{
}

} // verus!
