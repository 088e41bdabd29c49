use sylva_agent::error::AgentError;
use sylva_agent::key::{adopt_draw, load_or_create_key, settle_key, to_array32, MachineKey};
use sylva_agent::state::AgentState;

fn hex(text: &str) -> Vec<u8> {
    (0..text.len() / 2).map(|i| u8::from_str_radix(&text[2 * i..2 * i + 2], 16).unwrap()).collect()
}

// The first Ed25519 test vector of RFC 8032, section 7.1.
const SEED: &str = "9d61b19deffd5a60ba844af492ec2cc44449c5697b326919703bac031cae7f60";
const PUBLIC: &str = "d75a980182b10ab7d54bfed3c964073a0ee172f3daa62325af021a68f707511a";
const SIGNATURE: &str = "e5564300c360ac729086e2cc806e828a84877f1eb8e5d974d873e065224901555fb8821590a33bacc61e39701cf9b46bd25bf5f0595bbe24655141438e7a100b";

fn vector_key() -> MachineKey {
    MachineKey { seed: to_array32(&hex(SEED)).unwrap() }
}

#[test]
fn the_public_key_is_the_ed25519_one() {
    assert_eq!(vector_key().public().to_vec(), hex(PUBLIC));
}

#[test]
fn the_signature_is_the_ed25519_one() {
    assert_eq!(vector_key().sign(&[]).to_vec(), hex(SIGNATURE));
    assert_ne!(vector_key().sign(&[1]).to_vec(), hex(SIGNATURE));
}

#[test]
fn only_32_bytes_make_an_array() {
    assert_eq!(to_array32(&[5; 32]), Some([5; 32]));
    assert_eq!(to_array32(&[]), None);
    assert_eq!(to_array32(&[5; 31]), None);
    assert_eq!(to_array32(&[5; 33]), None);
    let counting: Vec<u8> = (0..32).collect();
    assert_eq!(to_array32(&counting).unwrap().to_vec(), counting);
}

#[test]
fn a_persisted_key_is_loaded() {
    let mut state = AgentState::default();
    state.machine_key_seed = Some(hex(SEED));
    let choice = load_or_create_key(&mut state).unwrap();
    assert!(!choice.fresh);
    assert_eq!(choice.key.seed.to_vec(), hex(SEED));
    assert_eq!(state.machine_key_seed, Some(hex(SEED)));
}

#[test]
fn a_key_is_generated_once_then_reused() {
    let mut state = AgentState::default();
    state.machine_id = Some("m".to_string());
    let first = load_or_create_key(&mut state).unwrap();
    assert!(first.fresh);
    assert_eq!(state.machine_key_seed, Some(first.key.seed.to_vec()));
    assert_eq!(state.machine_id, Some("m".to_string()));
    let second = load_or_create_key(&mut state).unwrap();
    assert!(!second.fresh);
    assert_eq!(second.key.seed, first.key.seed);
}

#[test]
fn two_machines_draw_different_keys() {
    let one = load_or_create_key(&mut AgentState::default()).unwrap();
    let two = load_or_create_key(&mut AgentState::default()).unwrap();
    assert_ne!(one.key.seed, two.key.seed);
    assert_ne!(one.key.seed, [0; 32]);
}

#[test]
fn a_drawn_seed_goes_into_the_state() {
    let mut state = AgentState::default();
    let choice = adopt_draw(&mut state, Some([9; 32])).unwrap_or_else(|_| panic!("a seed was drawn"));
    assert!(choice.fresh);
    assert_eq!(choice.key.seed, [9; 32]);
    assert_eq!(state.machine_key_seed, Some(vec![9; 32]));
}

#[test]
fn a_draw_counts_only_where_no_key_is_persisted() {
    let mut state = AgentState::default();
    state.machine_key_seed = Some(vec![1; 32]);
    for drawn in [Some([9; 32]), None] {
        let choice = settle_key(&mut state, drawn).unwrap_or_else(|_| panic!("a key is persisted"));
        assert!(!choice.fresh);
        assert_eq!(choice.key.seed, [1; 32]);
        assert_eq!(state.machine_key_seed, Some(vec![1; 32]));
    }
    let mut blank = AgentState::default();
    assert!(matches!(settle_key(&mut blank, None), Err(AgentError::NoRandomness)));
    let choice = settle_key(&mut blank, Some([9; 32])).unwrap_or_else(|_| panic!("a seed was drawn"));
    assert!(choice.fresh);
    assert_eq!(blank.machine_key_seed, Some(vec![9; 32]));
}

#[test]
fn without_randomness_there_is_no_key() {
    let mut state = AgentState::default();
    match adopt_draw(&mut state, None) {
        Err(error) => {
            assert!(matches!(error, AgentError::NoRandomness));
            assert_eq!(error.message(), "no randomness for a new machine key");
            assert_eq!(error.cause(), None);
        }
        Ok(_) => panic!("nothing was drawn"),
    }
    assert_eq!(state.machine_key_seed, None);
}

#[test]
fn a_persisted_seed_of_the_wrong_length_is_refused() {
    for length in [0, 31, 33] {
        let mut state = AgentState::default();
        state.machine_key_seed = Some(vec![1; length]);
        match load_or_create_key(&mut state) {
            Err(error) => {
                assert!(matches!(error, AgentError::BadKeySeed));
                assert_eq!(error.message(), "stored machine key seed is not 32 bytes");
            }
            Ok(_) => panic!("a seed of {length} bytes"),
        }
        assert_eq!(state.machine_key_seed, Some(vec![1; length]));
    }
}
