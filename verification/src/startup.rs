//! The startup sequence as a state machine: from each phase and event to the
//! next phase and the action that the caller performs.

use vstd::prelude::*;
use crate::config::{assembled, outcome_view, Config, ConfigError, ConfigView};

verus! {

/// The exit status of a bot whose runtime returned without an error.
pub const EXIT_SUCCESS: i32 = 0;

/// The exit status after any failure.
pub const EXIT_FAILURE: i32 = 1;

/// Why the bot could not authenticate.
#[derive(Clone, Copy, Debug, PartialEq, Eq, Structural)]
pub enum AuthError {
    /// The remote service refused the token.
    InvalidToken,
    /// The remote service could not be reached.
    NetworkFailure,
}

/// Why the runtime stopped.
#[derive(Clone, Copy, Debug, PartialEq, Eq, Structural)]
pub enum RuntimeError {
    /// The connection was lost and could not be restored.
    ConnectionLost,
    /// Any other failure that the runtime could not recover from.
    Unrecoverable,
}

/// How far the startup has come.
#[derive(Clone, Copy, Debug, PartialEq, Eq, Structural)]
pub enum Phase {
    /// Nothing was done yet.
    Unconfigured,
    /// The configuration was loaded.
    Configured,
    /// The owner was fetched.
    Authenticated,
    /// The runtime dispatches events.
    Dispatching,
    /// The process ends with this exit status.
    Terminated { exit_code: i32 },
}

/// What happened outside.
#[derive(Clone, Copy, Debug, PartialEq, Eq, Structural)]
pub enum Event {
    /// The configuration was loaded.
    ConfigLoaded,
    /// The configuration could not be loaded.
    ConfigFailed(ConfigError),
    /// The owner was fetched.
    OwnerFetched,
    /// The client could not log in, or the owner could not be fetched.
    AuthFailed(AuthError),
    /// The runtime connected and began to dispatch.
    RuntimeStarted,
    /// The runtime returned without an error.
    RuntimeStopped,
    /// The runtime returned an error.
    RuntimeFailed(RuntimeError),
}

/// What the caller does next.
#[derive(Clone, Copy, Debug, PartialEq, Eq, Structural)]
pub enum Action {
    /// Fill the shared state, then fetch the owner from the remote service.
    Authenticate,
    /// Build the dispatcher and start the runtime.
    Dispatch,
    /// Wait for the runtime to return.
    Wait,
    /// End the process with this exit status.
    Exit { code: i32 },
    /// Nothing: the event does not belong to the phase.
    Nothing,
}

/// The action writes to the shared state.
pub open spec fn writes_shared_state(action: Action) -> bool {
    action == Action::Authenticate
}

/// The action calls the remote service.
pub open spec fn uses_network(action: Action) -> bool {
    action == Action::Authenticate || action == Action::Dispatch
}

/// The place of a phase in the sequence.
pub open spec fn rank(phase: Phase) -> nat {
    match phase {
        Phase::Unconfigured => 0,
        Phase::Configured => 1,
        Phase::Authenticated => 2,
        Phase::Dispatching => 3,
        Phase::Terminated { .. } => 4,
    }
}

/// The event reports a failure.
pub open spec fn is_failure(event: Event) -> bool {
    event is ConfigFailed || event is AuthFailed || event is RuntimeFailed
}

/// The next phase and the action, for each phase and event. A failure ends
/// the process with status 1, without another try. An event that does not
/// belong to the phase changes nothing.
pub open spec fn transition(phase: Phase, event: Event) -> (Phase, Action) {
    match (phase, event) {
        (Phase::Unconfigured, Event::ConfigLoaded) => (Phase::Configured, Action::Authenticate),
        (Phase::Unconfigured, Event::ConfigFailed(_)) => (
            Phase::Terminated { exit_code: EXIT_FAILURE },
            Action::Exit { code: EXIT_FAILURE },
        ),
        (Phase::Configured, Event::OwnerFetched) => (Phase::Authenticated, Action::Dispatch),
        (Phase::Configured, Event::AuthFailed(_)) => (
            Phase::Terminated { exit_code: EXIT_FAILURE },
            Action::Exit { code: EXIT_FAILURE },
        ),
        (Phase::Authenticated, Event::RuntimeStarted) => (Phase::Dispatching, Action::Wait),
        (Phase::Authenticated, Event::RuntimeFailed(_)) => (
            Phase::Terminated { exit_code: EXIT_FAILURE },
            Action::Exit { code: EXIT_FAILURE },
        ),
        (Phase::Dispatching, Event::RuntimeStopped) => (
            Phase::Terminated { exit_code: EXIT_SUCCESS },
            Action::Exit { code: EXIT_SUCCESS },
        ),
        (Phase::Dispatching, Event::RuntimeFailed(_)) => (
            Phase::Terminated { exit_code: EXIT_FAILURE },
            Action::Exit { code: EXIT_FAILURE },
        ),
        _ => (phase, Action::Nothing),
    }
}

/// The event for an outcome of the assembly: a loaded configuration, or the
/// failure with its error.
pub open spec fn event_of(outcome: Result<ConfigView, ConfigError>) -> Event {
    match outcome {
        Ok(_) => Event::ConfigLoaded,
        Err(e) => Event::ConfigFailed(e),
    }
}

/// The event that the outcome of loading the configuration raises.
pub fn config_event(outcome: &Result<Config, ConfigError>) -> (event: Event)
    ensures
        event == event_of(outcome_view(*outcome)),
{
    match outcome {
        Ok(_) => Event::ConfigLoaded,
        Err(e) => Event::ConfigFailed(*e),
    }
}

/// Advances the startup by one event.
pub fn step(phase: Phase, event: Event) -> (next: (Phase, Action))
    ensures
        next == transition(phase, event),
{
    let failed = (
        Phase::Terminated { exit_code: EXIT_FAILURE },
        Action::Exit { code: EXIT_FAILURE },
    );
    match phase {
        Phase::Unconfigured => match event {
            Event::ConfigLoaded => (Phase::Configured, Action::Authenticate),
            Event::ConfigFailed(_) => failed,
            _ => (phase, Action::Nothing),
        },
        Phase::Configured => match event {
            Event::OwnerFetched => (Phase::Authenticated, Action::Dispatch),
            Event::AuthFailed(_) => failed,
            _ => (phase, Action::Nothing),
        },
        Phase::Authenticated => match event {
            Event::RuntimeStarted => (Phase::Dispatching, Action::Wait),
            Event::RuntimeFailed(_) => failed,
            _ => (phase, Action::Nothing),
        },
        Phase::Dispatching => match event {
            Event::RuntimeStopped => (
                Phase::Terminated { exit_code: EXIT_SUCCESS },
                Action::Exit { code: EXIT_SUCCESS },
            ),
            Event::RuntimeFailed(_) => failed,
            _ => (phase, Action::Nothing),
        },
        Phase::Terminated { .. } => (phase, Action::Nothing),
    }
}

/// A configuration that cannot be loaded ends the startup at once, with
/// status 1: nothing is written to the shared state and the remote service
/// is not called.
pub proof fn lemma_failed_configuration_terminates(error: ConfigError)
    ensures
        transition(Phase::Unconfigured, Event::ConfigFailed(error)) == (
            Phase::Terminated { exit_code: EXIT_FAILURE },
            Action::Exit { code: EXIT_FAILURE },
        ),
        !writes_shared_state(transition(Phase::Unconfigured, Event::ConfigFailed(error)).1),
        !uses_network(transition(Phase::Unconfigured, Event::ConfigFailed(error)).1),
{
}

/// Settings without the token or without the prefix stop the startup in its
/// first step: the assembly fails with the error of the missing setting, and
/// the step that follows ends the process with status 1 without a write to
/// the shared state and without a call of the remote service.
pub proof fn lemma_missing_setting_stops_the_startup(
    token: Option<Seq<char>>,
    prefix: Option<Seq<char>>,
    permissions: Option<Seq<char>>,
)
    requires
        token is None || prefix is None,
    ensures
        assembled(token, prefix, permissions) == Err::<ConfigView, ConfigError>(
            if token is None {
                ConfigError::MissingToken
            } else {
                ConfigError::MissingPrefix
            },
        ),
        transition(Phase::Unconfigured, event_of(assembled(token, prefix, permissions))) == (
            Phase::Terminated { exit_code: EXIT_FAILURE },
            Action::Exit { code: EXIT_FAILURE },
        ),
        !writes_shared_state(
            transition(Phase::Unconfigured, event_of(assembled(token, prefix, permissions))).1,
        ),
        !uses_network(
            transition(Phase::Unconfigured, event_of(assembled(token, prefix, permissions))).1,
        ),
{
}

/// Settings with the token and the prefix let the startup go on to
/// authentication, whatever the permissions setting holds.
pub proof fn lemma_present_settings_start_the_bot(
    token: Seq<char>,
    prefix: Seq<char>,
    permissions: Option<Seq<char>>,
)
    ensures
        transition(
            Phase::Unconfigured,
            event_of(assembled(Some(token), Some(prefix), permissions)),
        ) == (Phase::Configured, Action::Authenticate),
{
}

/// Only a loaded configuration lets the shared state be written, and only
/// in the first step.
pub proof fn lemma_shared_state_written_once(phase: Phase, event: Event)
    ensures
        writes_shared_state(transition(phase, event).1) <==> phase == Phase::Unconfigured && event
            == Event::ConfigLoaded,
{
}

/// The startup never goes back: the next phase is the same one or a later
/// one, and a terminated startup stays as it is and asks for nothing.
pub proof fn lemma_phases_advance(phase: Phase, event: Event)
    ensures
        rank(phase) <= rank(transition(phase, event).0),
        phase is Terminated ==> transition(phase, event) == (phase, Action::Nothing),
{
}

/// A failure that belongs to the phase ends the process with status 1; the
/// process ends with status 0 only when the dispatching runtime returns
/// without an error.
pub proof fn lemma_exit_status(phase: Phase, event: Event)
    ensures
        is_failure(event) && transition(phase, event).0 != phase ==> transition(phase, event) == (
            Phase::Terminated { exit_code: EXIT_FAILURE },
            Action::Exit { code: EXIT_FAILURE },
        ),
        transition(phase, event).1 == (Action::Exit { code: EXIT_SUCCESS }) <==> phase
            == Phase::Dispatching && event == Event::RuntimeStopped,
        transition(phase, event).1 matches Action::Exit { code } ==> transition(phase, event).0
            == (Phase::Terminated { exit_code: code }),
{
}

} // verus!
