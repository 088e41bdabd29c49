use sylva_agent::state::{AgentState, LoadOutcome, SaveStep};

fn some_state() -> AgentState {
    AgentState {
        machine_key_seed: Some(vec![7; 32]),
        server_identity: Some(vec![8; 32]),
        machine_id: Some("m-1".to_string()),
        session_token: Some("t-1".to_string()),
    }
}

#[test]
fn a_missing_file_gives_a_fresh_state() {
    let state = AgentState::load(LoadOutcome::Missing).unwrap();
    assert!(state.machine_key_seed.is_none());
    assert!(state.server_identity.is_none());
    assert!(state.machine_id.is_none());
    assert!(state.session_token.is_none());
}

#[test]
fn a_parsed_file_gives_its_state() {
    let state = AgentState::load(LoadOutcome::Parsed(some_state())).unwrap();
    assert_eq!(format!("{:?}", state), format!("{:?}", some_state()));
}

#[test]
fn a_file_that_cannot_be_read_or_parsed_is_an_error() {
    let malformed = AgentState::load(LoadOutcome::Malformed("expected value".to_string()));
    assert_eq!(malformed.unwrap_err(), "expected value");
    let unreadable = AgentState::load(LoadOutcome::Unreadable("permission denied".to_string()));
    assert_eq!(unreadable.unwrap_err(), "permission denied");
}

#[test]
fn saving_creates_the_parent_directory_first() {
    let steps = some_state().save("/var/lib/agent/s.json".to_string(), Some("/var/lib/agent".to_string()));
    assert_eq!(steps.len(), 2);
    assert!(matches!(&steps[0], SaveStep::CreateDirs(dir) if dir == "/var/lib/agent"));
    match &steps[1] {
        SaveStep::Write { path, state } => {
            assert_eq!(path, "/var/lib/agent/s.json");
            assert_eq!(format!("{:?}", state), format!("{:?}", some_state()));
        }
        SaveStep::CreateDirs(_) => panic!("the last step writes"),
    }
}

#[test]
fn saving_beside_the_program_creates_no_directory() {
    for parent in [None, Some(String::new())] {
        let steps = some_state().save("s.json".to_string(), parent);
        assert_eq!(steps.len(), 1);
        assert!(matches!(&steps[0], SaveStep::Write { path, .. } if path == "s.json"));
    }
}

#[test]
fn a_copy_holds_the_same() {
    assert_eq!(format!("{:?}", some_state().copied()), format!("{:?}", some_state()));
    let blank = AgentState::default();
    assert_eq!(format!("{:?}", blank.copied()), format!("{:?}", blank));
}

#[test]
fn what_a_save_writes_is_what_a_load_gives_back() {
    let mut state = some_state();
    state.machine_key_seed = Some(vec![]);
    state.machine_id = None;
    state.session_token = Some(String::new());
    let written = match state.save("s.json".to_string(), None).pop() {
        Some(SaveStep::Write { state, .. }) => state,
        _ => panic!("the last step writes"),
    };
    let loaded = AgentState::load(LoadOutcome::Parsed(written)).unwrap();
    assert_eq!(loaded.machine_key_seed, Some(vec![]));
    assert_eq!(loaded.server_identity, Some(vec![8; 32]));
    assert_eq!(loaded.machine_id, None);
    assert_eq!(loaded.session_token, Some(String::new()));
}
