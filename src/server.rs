use vstd::prelude::*;

verus! {

/// Where the serving loop stands.
#[derive(Clone, Copy, Debug, PartialEq, Eq, Structural)]
pub enum ServerState {
    Binding,
    Listening,
    Stopped,
}

/// What the outside world reports to the serving loop.
#[derive(Clone, Copy, Debug, PartialEq, Eq, Structural)]
pub enum ServerEvent {
    Bound,
    BindFailed,
    RequestServed,
    RequestFailed,
    ListenerClosed,
}

/// What the serving loop asks the outside world to do next.
#[derive(Clone, Copy, Debug, PartialEq, Eq, Structural)]
pub enum ServerAction {
    /// Announce the address and wait for the next request.
    Announce,
    /// Wait for the next request.
    Accept,
    /// Log the failure of the request just handled, then wait for the next one.
    LogFailureAndAccept,
    /// Report that the address could not be bound; serving never starts.
    ReportBindFailure,
    /// Report that the listening socket is gone; serving ends.
    ReportShutdown,
    /// Nothing is left to do.
    Halt,
}

/// The transition of the serving loop on one event. Only a failure to bind
/// or the loss of the listening socket stops it; a failed request does not.
pub open spec fn step_of(state: ServerState, event: ServerEvent) -> (ServerState, ServerAction) {
    match state {
        ServerState::Binding => match event {
            ServerEvent::Bound => (ServerState::Listening, ServerAction::Announce),
            ServerEvent::BindFailed => (ServerState::Stopped, ServerAction::ReportBindFailure),
            _ => (ServerState::Binding, ServerAction::Halt),
        },
        ServerState::Listening => match event {
            ServerEvent::RequestServed => (ServerState::Listening, ServerAction::Accept),
            ServerEvent::RequestFailed => (
                ServerState::Listening,
                ServerAction::LogFailureAndAccept,
            ),
            ServerEvent::ListenerClosed => (ServerState::Stopped, ServerAction::ReportShutdown),
            _ => (ServerState::Listening, ServerAction::Accept),
        },
        ServerState::Stopped => (ServerState::Stopped, ServerAction::Halt),
    }
}

/// The state reached from `state` after the events, in order.
pub open spec fn run(state: ServerState, events: Seq<ServerEvent>) -> ServerState
    decreases events.len(),
{
    if events.len() == 0 {
        state
    } else {
        step_of(run(state, events.drop_last()), events.last()).0
    }
}

/// Whether an event is the outcome of handling one request.
pub open spec fn is_request_outcome(e: ServerEvent) -> bool {
    e is RequestServed || e is RequestFailed
}

/// Takes the serving loop one step.
pub fn next_step(state: ServerState, event: ServerEvent) -> (r: (ServerState, ServerAction))
    ensures
        r == step_of(state, event),
{
    match state {
        ServerState::Binding => match event {
            ServerEvent::Bound => (ServerState::Listening, ServerAction::Announce),
            ServerEvent::BindFailed => (ServerState::Stopped, ServerAction::ReportBindFailure),
            _ => (ServerState::Binding, ServerAction::Halt),
        },
        ServerState::Listening => match event {
            ServerEvent::RequestServed => (ServerState::Listening, ServerAction::Accept),
            ServerEvent::RequestFailed => (
                ServerState::Listening,
                ServerAction::LogFailureAndAccept,
            ),
            ServerEvent::ListenerClosed => (ServerState::Stopped, ServerAction::ReportShutdown),
            _ => (ServerState::Listening, ServerAction::Accept),
        },
        ServerState::Stopped => (ServerState::Stopped, ServerAction::Halt),
    }
}

/// Whether the loop goes on waiting for requests after this action.
pub open spec fn keeps_accepting(a: ServerAction) -> bool {
    a is Announce || a is Accept || a is LogFailureAndAccept
}

/// A failed request leaves the loop listening, and the very next request is
/// still accepted and served.
pub proof fn lemma_failure_keeps_serving()
    ensures
        step_of(ServerState::Listening, ServerEvent::RequestFailed).0 == ServerState::Listening,
        keeps_accepting(step_of(ServerState::Listening, ServerEvent::RequestFailed).1),
        step_of(
            step_of(ServerState::Listening, ServerEvent::RequestFailed).0,
            ServerEvent::RequestServed,
        ) == (ServerState::Listening, ServerAction::Accept),
{
}

/// However requests succeed or fail, a listening loop is still listening
/// after them: only the loss of the listening socket stops it.
pub proof fn lemma_requests_never_stop(events: Seq<ServerEvent>)
    requires
        forall|i: int| 0 <= i < events.len() ==> is_request_outcome(#[trigger] events[i]),
    ensures
        run(ServerState::Listening, events) == ServerState::Listening,
    decreases events.len(),
{
    if events.len() > 0 {
        let rest = events.drop_last();
        assert forall|i: int| 0 <= i < rest.len() implies is_request_outcome(#[trigger] rest[i]) by {
            assert(rest[i] == events[i]);
        }
        lemma_requests_never_stop(rest);
        assert(is_request_outcome(events[events.len() - 1]));
    }
}

} // verus!
