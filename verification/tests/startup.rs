use bot_core::config::ConfigError;
use bot_core::startup::{
    step, Action, AuthError, Event, Phase, RuntimeError, EXIT_FAILURE, EXIT_SUCCESS,
};

const FAILED: (Phase, Action) = (Phase::Terminated { exit_code: 1 }, Action::Exit { code: 1 });

fn all_events() -> Vec<Event> {
    vec![
        Event::ConfigLoaded,
        Event::ConfigFailed(ConfigError::MissingToken),
        Event::ConfigFailed(ConfigError::MissingPrefix),
        Event::OwnerFetched,
        Event::AuthFailed(AuthError::InvalidToken),
        Event::AuthFailed(AuthError::NetworkFailure),
        Event::RuntimeStarted,
        Event::RuntimeStopped,
        Event::RuntimeFailed(RuntimeError::ConnectionLost),
        Event::RuntimeFailed(RuntimeError::Unrecoverable),
    ]
}

fn rank(phase: Phase) -> u8 {
    match phase {
        Phase::Unconfigured => 0,
        Phase::Configured => 1,
        Phase::Authenticated => 2,
        Phase::Dispatching => 3,
        Phase::Terminated { .. } => 4,
    }
}

#[test]
fn exit_statuses_are_zero_and_one() {
    assert_eq!(EXIT_SUCCESS, 0);
    assert_eq!(EXIT_FAILURE, 1);
}

#[test]
fn the_startup_runs_through_its_phases() {
    let (phase, action) = step(Phase::Unconfigured, Event::ConfigLoaded);
    assert_eq!((phase, action), (Phase::Configured, Action::Authenticate));
    let (phase, action) = step(phase, Event::OwnerFetched);
    assert_eq!((phase, action), (Phase::Authenticated, Action::Dispatch));
    let (phase, action) = step(phase, Event::RuntimeStarted);
    assert_eq!((phase, action), (Phase::Dispatching, Action::Wait));
    let (phase, action) = step(phase, Event::RuntimeStopped);
    assert_eq!((phase, action), (Phase::Terminated { exit_code: 0 }, Action::Exit { code: 0 }));
}

#[test]
fn a_failed_configuration_exits_with_one() {
    assert_eq!(step(Phase::Unconfigured, Event::ConfigFailed(ConfigError::MissingToken)), FAILED);
    assert_eq!(step(Phase::Unconfigured, Event::ConfigFailed(ConfigError::MissingPrefix)), FAILED);
}

#[test]
fn a_failed_authentication_exits_with_one() {
    assert_eq!(step(Phase::Configured, Event::AuthFailed(AuthError::InvalidToken)), FAILED);
    assert_eq!(step(Phase::Configured, Event::AuthFailed(AuthError::NetworkFailure)), FAILED);
}

#[test]
fn a_failed_runtime_exits_with_one() {
    assert_eq!(step(Phase::Authenticated, Event::RuntimeFailed(RuntimeError::ConnectionLost)), FAILED);
    assert_eq!(step(Phase::Dispatching, Event::RuntimeFailed(RuntimeError::ConnectionLost)), FAILED);
    assert_eq!(step(Phase::Dispatching, Event::RuntimeFailed(RuntimeError::Unrecoverable)), FAILED);
}

#[test]
fn an_event_out_of_place_changes_nothing() {
    assert_eq!(step(Phase::Unconfigured, Event::OwnerFetched), (Phase::Unconfigured, Action::Nothing));
    assert_eq!(step(Phase::Unconfigured, Event::RuntimeStopped), (Phase::Unconfigured, Action::Nothing));
    assert_eq!(step(Phase::Configured, Event::ConfigLoaded), (Phase::Configured, Action::Nothing));
    assert_eq!(
        step(Phase::Configured, Event::ConfigFailed(ConfigError::MissingToken)),
        (Phase::Configured, Action::Nothing)
    );
    assert_eq!(step(Phase::Authenticated, Event::RuntimeStopped), (Phase::Authenticated, Action::Nothing));
    assert_eq!(step(Phase::Dispatching, Event::RuntimeStarted), (Phase::Dispatching, Action::Nothing));
}

#[test]
fn a_terminated_startup_stays_terminated() {
    for code in [0, 1] {
        let phase = Phase::Terminated { exit_code: code };
        for event in all_events() {
            assert_eq!(step(phase, event), (phase, Action::Nothing));
        }
    }
}

#[test]
fn the_startup_never_goes_back() {
    let phases = [
        Phase::Unconfigured,
        Phase::Configured,
        Phase::Authenticated,
        Phase::Dispatching,
        Phase::Terminated { exit_code: 0 },
        Phase::Terminated { exit_code: 1 },
    ];
    for phase in phases {
        for event in all_events() {
            let (next, action) = step(phase, event);
            assert!(rank(phase) <= rank(next));
            if let Action::Exit { code } = action {
                assert_eq!(next, Phase::Terminated { exit_code: code });
            }
            if action == Action::Authenticate {
                assert_eq!((phase, event), (Phase::Unconfigured, Event::ConfigLoaded));
            }
            if action == (Action::Exit { code: 0 }) {
                assert_eq!((phase, event), (Phase::Dispatching, Event::RuntimeStopped));
            }
        }
    }
}
