use sylva_agent::agent::{Action, Agent, Event, Phase, TrustDecision};
use sylva_agent::config::Config;
use sylva_agent::error::{describe_connect, AgentError, ConnectFailure};
use sylva_agent::key::{KeyChoice, MachineKey};
use sylva_agent::registration::{registration_request, MachineSession};
use sylva_agent::state::{AgentState, LoadOutcome};

fn cold() -> Agent {
    let config = Config {
        host: "hub".to_string(),
        discovery_port: 8443,
        state_path: "dir/s.json".to_string(),
    };
    let (agent, action) = Agent::start(config, "linux".to_string(), "box".to_string());
    assert!(matches!(action, Action::Load { path } if path == "dir/s.json"));
    agent
}

fn keyed_state() -> AgentState {
    let mut state = AgentState::default();
    state.machine_key_seed = Some(vec![4; 32]);
    state
}

fn pinned_state() -> AgentState {
    let mut state = keyed_state();
    state.server_identity = Some(vec![6; 32]);
    state
}

fn session() -> MachineSession {
    MachineSession { machine_id: "m".to_string(), token: "t".to_string() }
}

fn connecting() -> Agent {
    let mut agent = cold();
    agent.step(Event::Loaded(LoadOutcome::Parsed(pinned_state())));
    agent
}

fn running() -> Agent {
    let mut agent = connecting();
    agent.step(Event::Connected { identity: [6; 32], decision: TrustDecision::Pinned });
    agent.step(Event::Registered(session()));
    match agent.step(Event::Saved(Ok(()))) {
        Some(Action::Run { token }) => assert_eq!(token, "t"),
        _ => panic!("a registered agent runs"),
    }
    agent
}

fn saved(action: Option<Action>) -> AgentState {
    match action {
        Some(Action::Save { path, state }) => {
            assert_eq!(path, "dir/s.json");
            state
        }
        _ => panic!("expected a save"),
    }
}

fn failed(action: Option<Action>) -> AgentError {
    match action {
        Some(Action::Exit(Err(error))) => error,
        _ => panic!("expected an exit with an error"),
    }
}

#[test]
fn a_first_run_persists_everything_before_it_is_used() {
    let mut agent = cold();
    let state = saved(agent.step(Event::Loaded(LoadOutcome::Missing)));
    let seed = state.machine_key_seed.unwrap();
    assert_eq!(seed.len(), 32);
    assert_eq!(state.server_identity, None);

    match agent.step(Event::Saved(Ok(()))) {
        Some(Action::Connect { host, discovery_port, pinned }) => {
            assert_eq!(host, "hub");
            assert_eq!(discovery_port, 8443);
            assert_eq!(pinned, None);
        }
        _ => panic!("expected a connection"),
    }

    let first = Event::Connected { identity: [5; 32], decision: TrustDecision::FirstContact };
    let state = saved(agent.step(first));
    assert_eq!(state.server_identity, Some(vec![5; 32]));
    assert_eq!(state.machine_key_seed, Some(seed.clone()));

    match agent.step(Event::Saved(Ok(()))) {
        Some(Action::Register(request)) => {
            let key = MachineKey { seed: seed.as_slice().try_into().unwrap() };
            let expected = registration_request(&key, "linux", "box");
            assert_eq!(request.machine_identity_public, expected.machine_identity_public);
            assert_eq!(request.signature, expected.signature);
            assert_eq!(request.platform, "linux");
            assert_eq!(request.label, "box");
        }
        _ => panic!("expected a registration"),
    }

    let state = saved(agent.step(Event::Registered(session())));
    assert_eq!(state.machine_id, Some("m".to_string()));
    assert_eq!(state.session_token, Some("t".to_string()));
    assert_eq!(state.server_identity, Some(vec![5; 32]));
    assert!(matches!(agent.step(Event::Saved(Ok(()))), Some(Action::Run { token }) if token == "t"));
    assert!(matches!(agent.step(Event::Interrupted), Some(Action::Exit(Ok(())))));
}

#[test]
fn a_restarted_machine_reaches_out_with_the_same_key_and_pin() {
    let mut first = cold();
    let state = saved(first.step(Event::Loaded(LoadOutcome::Missing)));
    let seed = state.machine_key_seed.clone();
    first.step(Event::Saved(Ok(())));
    let contact = Event::Connected { identity: [5; 32], decision: TrustDecision::FirstContact };
    let file = saved(first.step(contact));

    let mut second = cold();
    match second.step(Event::Loaded(LoadOutcome::Parsed(file))) {
        Some(Action::Connect { pinned, .. }) => assert_eq!(pinned, Some([5; 32])),
        _ => panic!("a persisted key needs no save"),
    }
    assert_eq!(second.state.machine_key_seed, seed);
}

#[test]
fn a_machine_that_never_reached_a_server_keeps_its_key() {
    let mut first = cold();
    let file = saved(first.step(Event::Loaded(LoadOutcome::Missing)));
    let seed = file.machine_key_seed.clone();
    first.step(Event::Saved(Ok(())));
    failed(first.step(Event::ConnectFailed(ConnectFailure::Other("refused".to_string()))));

    let mut second = cold();
    let action = second.step(Event::Loaded(LoadOutcome::Parsed(file)));
    assert!(matches!(action, Some(Action::Connect { pinned: None, .. })));
    assert_eq!(second.state.machine_key_seed, seed);
}

#[test]
fn a_known_server_is_registered_with_at_once() {
    let mut agent = connecting();
    let known = Event::Connected { identity: [6; 32], decision: TrustDecision::Pinned };
    assert!(matches!(agent.step(known), Some(Action::Register(_))));
    assert_eq!(agent.state.server_identity, Some(vec![6; 32]));
}

#[test]
fn a_server_with_another_identity_is_refused() {
    let mut agent = connecting();
    let error = failed(agent.step(Event::ConnectFailed(ConnectFailure::IdentityMismatch)));
    assert_eq!(
        error.message(),
        "server identity does not match the pinned key — refusing to connect (delete the agent state to re-pin a known-good server)",
    );
    assert_eq!(error.cause(), None);
    assert_eq!(agent.state.server_identity, Some(vec![6; 32]));
    assert!(matches!(agent.phase, Phase::Stopped));
    assert!(agent.step(Event::Registered(session())).is_none());
    assert!(agent.step(Event::Saved(Ok(()))).is_none());
}

#[test]
fn an_unreachable_server_is_described() {
    let failure = ConnectFailure::Other("Timeout".to_string());
    assert_eq!(describe_connect(&failure), "could not reach or verify the server: Timeout");
    let error = failed(connecting().step(Event::ConnectFailed(failure)));
    assert_eq!(error.message(), "could not reach or verify the server: Timeout");
}

#[test]
fn a_state_that_cannot_be_loaded_ends_the_agent() {
    let unreadable = LoadOutcome::Unreadable("denied".to_string());
    let error = failed(cold().step(Event::Loaded(unreadable)));
    assert_eq!(error.message(), "loading agent state from dir/s.json");
    assert_eq!(error.cause(), Some("denied".to_string()));
    let malformed = LoadOutcome::Malformed("eof".to_string());
    let error = failed(cold().step(Event::Loaded(malformed)));
    assert_eq!(error.cause(), Some("eof".to_string()));
}

#[test]
fn a_stored_seed_of_the_wrong_length_ends_the_agent() {
    let mut state = pinned_state();
    state.machine_key_seed = Some(vec![4; 16]);
    let error = failed(cold().step(Event::Loaded(LoadOutcome::Parsed(state))));
    assert!(matches!(error, AgentError::BadKeySeed));
}

#[test]
fn a_stored_pin_of_the_wrong_length_ends_the_agent() {
    let mut state = keyed_state();
    state.server_identity = Some(vec![6; 33]);
    let mut agent = cold();
    let error = failed(agent.step(Event::Loaded(LoadOutcome::Parsed(state))));
    assert!(matches!(error, AgentError::BadServerIdentity));
    assert_eq!(error.message(), "stored server identity is not 32 bytes");
    assert!(matches!(agent.pinned_identity(), Err(AgentError::BadServerIdentity)));

    // A new key is persisted before the pin is looked at.
    let mut state = AgentState::default();
    state.server_identity = Some(vec![6; 31]);
    let mut agent = cold();
    saved(agent.step(Event::Loaded(LoadOutcome::Parsed(state))));
    let error = failed(agent.step(Event::Saved(Ok(()))));
    assert!(matches!(error, AgentError::BadServerIdentity));
}

#[test]
fn a_pin_is_read_back() {
    assert_eq!(cold().pinned_identity().unwrap(), None);
    assert_eq!(connecting().pinned_identity().unwrap(), Some([6; 32]));
}

#[test]
fn a_save_that_fails_ends_the_agent() {
    let full = || Event::Saved(Err("disk full".to_string()));
    let mut key = cold();
    key.step(Event::Loaded(LoadOutcome::Missing));
    let mut pin = connecting();
    pin.step(Event::Connected { identity: [6; 32], decision: TrustDecision::FirstContact });
    let mut token = connecting();
    token.step(Event::Connected { identity: [6; 32], decision: TrustDecision::Pinned });
    token.step(Event::Registered(session()));
    for mut agent in [key, pin, token] {
        let error = failed(agent.step(full()));
        assert_eq!(error.message(), "disk full");
        assert_eq!(error.cause(), None);
        assert!(matches!(agent.phase, Phase::Stopped));
    }
}

#[test]
fn a_refused_registration_ends_the_agent() {
    let mut agent = connecting();
    agent.step(Event::Connected { identity: [6; 32], decision: TrustDecision::Pinned });
    let error = failed(agent.step(Event::RegisterFailed("unavailable".to_string())));
    assert_eq!(error.message(), "register_machine failed");
    assert_eq!(error.cause(), Some("unavailable".to_string()));
    assert_eq!(agent.state.session_token, None);
}

#[test]
fn the_first_loop_to_end_decides_how_the_agent_leaves() {
    assert!(matches!(running().step(Event::LoopEnded(Ok(()))), Some(Action::Exit(Ok(())))));
    assert!(matches!(running().step(Event::Interrupted), Some(Action::Exit(Ok(())))));
    let lost = AgentError::CheckIn { cause: "401".to_string() };
    let error = failed(running().step(Event::LoopEnded(Err(lost))));
    assert_eq!(error.message(), "check-in failed");
}

#[test]
fn an_event_out_of_turn_changes_nothing() {
    let mut agent = cold();
    assert!(agent.step(Event::Saved(Ok(()))).is_none());
    assert!(agent.step(Event::Saved(Err("x".to_string()))).is_none());
    assert!(agent.step(Event::Registered(session())).is_none());
    assert!(agent.step(Event::RegisterFailed("x".to_string())).is_none());
    assert!(agent.step(Event::ConnectFailed(ConnectFailure::IdentityMismatch)).is_none());
    assert!(agent.step(Event::Connected { identity: [1; 32], decision: TrustDecision::FirstContact }).is_none());
    assert!(agent.step(Event::LoopEnded(Ok(()))).is_none());
    assert!(agent.step(Event::Interrupted).is_none());
    assert!(matches!(agent.phase, Phase::Loading));
    assert_eq!(agent.state.server_identity, None);
    let mut agent = running();
    assert!(agent.step(Event::Loaded(LoadOutcome::Missing)).is_none());
    assert_eq!(agent.state.machine_key_seed, Some(vec![4; 32]));
}

#[test]
fn the_key_of_a_run_stays_the_same() {
    let agent = running();
    assert_eq!(agent.state.machine_key_seed, Some(vec![4; 32]));
    assert_eq!(agent.state.server_identity, Some(vec![6; 32]));
}

#[test]
fn a_settled_key_is_saved_only_where_it_is_new() {
    let key = MachineKey { seed: [4; 32] };
    let mut agent = cold();
    agent.state = keyed_state();
    assert!(matches!(agent.use_key(KeyChoice { key, fresh: false }), Action::Connect { .. }));
    let mut agent = cold();
    agent.state = keyed_state();
    let state = saved(Some(agent.use_key(KeyChoice { key, fresh: true })));
    assert_eq!(state.machine_key_seed, Some(vec![4; 32]));
}

#[test]
fn a_drawn_key_is_saved_and_a_missing_draw_ends_the_agent() {
    let mut agent = cold();
    let state = saved(agent.step_with(Event::Loaded(LoadOutcome::Missing), Some([3; 32])));
    assert_eq!(state.machine_key_seed, Some(vec![3; 32]));
    assert!(matches!(agent.phase, Phase::SavingKey(key) if key.seed == [3; 32]));

    let mut agent = cold();
    let error = failed(agent.step_with(Event::Loaded(LoadOutcome::Missing), None));
    assert!(matches!(error, AgentError::NoRandomness));
    assert_eq!(agent.state.machine_key_seed, None);

    let mut agent = cold();
    assert!(matches!(agent.settle_key(None), Action::Exit(Err(AgentError::NoRandomness))));
    let mut agent = cold();
    saved(Some(agent.settle_key(Some([3; 32]))));
}

#[test]
fn a_new_key_is_needed_only_where_a_state_without_one_is_loaded() {
    let agent = cold();
    assert!(agent.needs_key(&Event::Loaded(LoadOutcome::Missing)));
    assert!(agent.needs_key(&Event::Loaded(LoadOutcome::Parsed(AgentState::default()))));
    assert!(!agent.needs_key(&Event::Loaded(LoadOutcome::Parsed(keyed_state()))));
    assert!(!agent.needs_key(&Event::Loaded(LoadOutcome::Malformed("eof".to_string()))));
    assert!(!agent.needs_key(&Event::Saved(Ok(()))));
    assert!(!connecting().needs_key(&Event::Loaded(LoadOutcome::Missing)));

    // A draw that is not needed is not used.
    let mut agent = cold();
    let action = agent.step_with(Event::Loaded(LoadOutcome::Parsed(keyed_state())), Some([3; 32]));
    assert!(matches!(action, Some(Action::Connect { .. })));
    assert_eq!(agent.state.machine_key_seed, Some(vec![4; 32]));
}
