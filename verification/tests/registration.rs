use ed25519_dalek::{Signature, Verifier, VerifyingKey};
use sylva_agent::key::MachineKey;
use sylva_agent::registration::{
    assemble_registration, canonical_machine_bytes, machine_label, record_registration,
    registration_request, MachineSession,
};
use sylva_agent::state::AgentState;

#[test]
fn canonical_bytes_are_framed_by_lines() {
    assert_eq!(
        canonical_machine_bytes(&[1, 2, 3], "linux", "box"),
        b"sylva-machine-registration:v1\n\x01\x02\x03\nlinux\nbox".to_vec(),
    );
    assert_eq!(canonical_machine_bytes(&[], "", ""), b"sylva-machine-registration:v1\n\n\n".to_vec());
    assert_eq!(
        canonical_machine_bytes(&[10], "w", "Büro"),
        b"sylva-machine-registration:v1\n\n\nw\nB\xc3\xbcro".to_vec(),
    );
}

#[test]
fn canonical_bytes_tell_registrations_apart() {
    let one = canonical_machine_bytes(&[1; 32], "linux", "a\nb");
    assert_ne!(one, canonical_machine_bytes(&[2; 32], "linux", "a\nb"));
    assert_ne!(one, canonical_machine_bytes(&[1; 32], "linu", "xa\nb"));
    assert_ne!(one, canonical_machine_bytes(&[1; 32], "linux", "a"));
    // A platform with a line feed of its own would be ambiguous.
    assert_eq!(one, canonical_machine_bytes(&[1; 32], "linux\na", "b"));
}

#[test]
fn the_label_prefers_the_computer_name() {
    let name = |s: &str| Some(s.to_string());
    assert_eq!(machine_label(name("PC"), name("host")), "PC");
    assert_eq!(machine_label(None, name("host")), "host");
    assert_eq!(machine_label(name(""), name("host")), "");
    assert_eq!(machine_label(None, None), "sylva-agent");
}

#[test]
fn a_registration_proves_possession_of_the_key() {
    let key = MachineKey { seed: [42; 32] };
    let request = registration_request(&key, "windows", "Büro-PC");
    assert_eq!(request.machine_identity_public, key.public().to_vec());
    assert_eq!(request.platform, "windows");
    assert_eq!(request.label, "Büro-PC");

    let public: [u8; 32] = request.machine_identity_public.as_slice().try_into().unwrap();
    let verifying = VerifyingKey::from_bytes(&public).unwrap();
    let signature = Signature::from_slice(&request.signature).unwrap();
    let message = canonical_machine_bytes(&public, &request.platform, &request.label);
    assert!(verifying.verify(&message, &signature).is_ok());

    let other = canonical_machine_bytes(&public, &request.platform, "another label");
    assert!(verifying.verify(&other, &signature).is_err());
}

#[test]
fn a_registration_holds_its_parts() {
    let request = assemble_registration(&[1; 32], "p", "l", &[2; 64]);
    assert_eq!(request.machine_identity_public, vec![1; 32]);
    assert_eq!(request.platform, "p");
    assert_eq!(request.label, "l");
    assert_eq!(request.signature, vec![2; 64]);
}

#[test]
fn a_registration_is_recorded_and_gives_the_token() {
    let mut state = AgentState::default();
    state.server_identity = Some(vec![3; 32]);
    let session = MachineSession { machine_id: "id".to_string(), token: "tok".to_string() };
    assert_eq!(record_registration(&mut state, &session), "tok");
    assert_eq!(state.machine_id, Some("id".to_string()));
    assert_eq!(state.session_token, Some("tok".to_string()));
    assert_eq!(state.server_identity, Some(vec![3; 32]));
    assert_eq!(state.machine_key_seed, None);
}
