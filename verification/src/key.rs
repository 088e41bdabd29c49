//! The machine identity key: generated once, then persisted and reused.

use vstd::prelude::*;
use crate::error::{AgentError, ErrorView};
use crate::state::{AgentState, StateView};

verus! {

/// The machine's Ed25519 identity key, held as its 32-byte seed.
#[derive(Clone, Copy)]
pub struct MachineKey {
    pub seed: [u8; 32],
}

impl View for MachineKey {
    type V = Seq<u8>;

    open spec fn view(&self) -> Seq<u8> {
        self.seed@
    }
}

/// The public key that belongs to an Ed25519 seed.
pub uninterp spec fn ed25519_public_key(seed: Seq<u8>) -> Seq<u8>;

/// The Ed25519 signature that the key of a seed makes over a message.
pub uninterp spec fn ed25519_signature(seed: Seq<u8>, message: Seq<u8>) -> Seq<u8>;

/// Calls `ed25519_dalek::SigningKey::verifying_key` on the key that
/// `SigningKey::from_bytes` makes of the seed. Trusted: the public key's bytes are a
/// function of the seed alone.
#[verifier::external_body]
fn verifying_key_bytes(seed: &[u8; 32]) -> (public: [u8; 32])
    ensures
        public@ == ed25519_public_key(seed@),
{
    ed25519_dalek::SigningKey::from_bytes(seed).verifying_key().to_bytes()
}

/// Calls `ed25519_dalek::Signer::sign` on the key that `SigningKey::from_bytes` makes of the
/// seed. Trusted: Ed25519 signing is deterministic, so the signature's bytes are a function
/// of the seed and the message.
#[verifier::external_body]
fn sign_bytes(seed: &[u8; 32], message: &[u8]) -> (signature: [u8; 64])
    ensures
        signature@ == ed25519_signature(seed@, message@),
{
    ed25519_dalek::Signer::sign(&ed25519_dalek::SigningKey::from_bytes(seed), message).to_bytes()
}

/// Calls `try_fill_bytes` of `rand::rngs::OsRng` on a new seed. Nothing is claimed of the
/// result: the bytes are the operating system's, and it may have none to give.
#[verifier::external_body]
pub(crate) fn os_random_seed() -> (seed: Option<[u8; 32]>) {
    let mut seed = [0u8; 32];
    match rand::RngCore::try_fill_bytes(&mut rand::rngs::OsRng, &mut seed) {
        Ok(()) => Some(seed),
        Err(_) => None,
    }
}

/// The bytes as an array of 32, if that is how many there are.
pub fn to_array32(bytes: &[u8]) -> (array: Option<[u8; 32]>)
    ensures
        match array {
            Some(a) => a@ == bytes@,
            None => bytes@.len() != 32,
        },
{
    if bytes.len() != 32 {
        return None;
    }
    let mut array: [u8; 32] = [0u8;32];
    let mut i: usize = 0;
    while i < 32
        invariant
            i <= 32,
            bytes@.len() == 32,
            forall|j: int| 0 <= j < i ==> array@[j] == bytes@[j],
        decreases 32 - i,
    {
        array[i] = bytes[i];
        i = i + 1;
    }
    assert(array@ == bytes@);
    Some(array)
}

impl MachineKey {
    /// The machine identity public key.
    pub fn public(&self) -> (public: [u8; 32])
        ensures
            public@ == ed25519_public_key(self@),
    {
        verifying_key_bytes(&self.seed)
    }

    /// Signs a message with the machine identity key.
    pub fn sign(&self, message: &[u8]) -> (signature: [u8; 64])
        ensures
            signature@ == ed25519_signature(self@, message@),
    {
        sign_bytes(&self.seed, message)
    }
}

/// The key to use, and whether it was made just now and has yet to be persisted.
pub struct KeyChoice {
    pub key: MachineKey,
    pub fresh: bool,
}

/// The bytes inside an optional array.
pub open spec fn array_of(bytes: Option<[u8; 32]>) -> Option<Seq<u8>> {
    match bytes {
        Some(b) => Some(b@),
        None => None,
    }
}

/// Whether a drawn seed, if there is one, is 32 bytes long.
pub open spec fn drawn_sized(drawn: Option<Seq<u8>>) -> bool {
    drawn matches Some(seed) ==> seed.len() == 32
}

/// The key to use, and whether it is a new one; an error where there is none.
pub type KeyView = Result<(Seq<u8>, bool), ErrorView>;

/// The mathematical content of a choice of key.
pub open spec fn choice_of(choice: Result<KeyChoice, AgentError>) -> KeyView {
    match choice {
        Ok(c) => Ok((c.key@, c.fresh)),
        Err(error) => Err(error@),
    }
}

/// The state after its machine key is settled, and the key: the persisted one as it is, or
/// the drawn one where none is persisted.
pub open spec fn key_settled(state: StateView, drawn: Option<Seq<u8>>) -> (StateView, KeyView) {
    match state.machine_key_seed {
        Some(seed) => if seed.len() == 32 {
            (state, Ok((seed, false)))
        } else {
            (state, Err(ErrorView::BadKeySeed))
        },
        None => match drawn {
            Some(seed) => (state.with_seed(seed), Ok((seed, true))),
            None => (state, Err(ErrorView::NoRandomness)),
        },
    }
}

/// Makes a newly drawn seed the machine's key: it goes into the state, to be persisted.
/// Where none could be drawn, that is an error and the state stays as it is.
pub fn adopt_draw(state: &mut AgentState, drawn: Option<[u8; 32]>) -> (choice: Result<
    KeyChoice,
    AgentError,
>)
    ensures
        match drawn {
            Some(seed) => {
                &&& choice is Ok
                &&& choice->Ok_0.key@ == seed@
                &&& choice->Ok_0.fresh
                &&& final(state)@ == old(state)@.with_seed(seed@)
            },
            None => {
                &&& choice == Err::<KeyChoice, AgentError>(AgentError::NoRandomness)
                &&& final(state)@ == old(state)@
            },
        },
{
    match drawn {
        Some(seed) => {
            state.machine_key_seed = Some(vstd::slice::slice_to_vec(seed.as_slice()));
            Ok(KeyChoice { key: MachineKey { seed }, fresh: true })
        },
        None => Err(AgentError::NoRandomness),
    }
}

/// The persisted machine key, or the drawn one, which the state then holds. A persisted seed
/// is used as it is, and refused if it is not 32 bytes long.
pub fn settle_key(state: &mut AgentState, drawn: Option<[u8; 32]>) -> (choice: Result<
    KeyChoice,
    AgentError,
>)
    ensures
        (final(state)@, choice_of(choice)) == key_settled(old(state)@, array_of(drawn)),
{
    if let Some(stored) = &state.machine_key_seed {
        return match to_array32(stored.as_slice()) {
            Some(seed) => Ok(KeyChoice { key: MachineKey { seed }, fresh: false }),
            None => Err(AgentError::BadKeySeed),
        };
    }
    adopt_draw(state, drawn)
}

/// The persisted machine key, or a new one that the state then holds. A new one is drawn
/// only where none is persisted; where the operating system has no randomness for it, the
/// state stays without a key.
pub fn load_or_create_key(state: &mut AgentState) -> (choice: Result<KeyChoice, AgentError>)
    ensures
        exists|drawn: Option<Seq<u8>>|
            drawn_sized(drawn) && (final(state)@, choice_of(choice)) == #[trigger] key_settled(
                old(state)@,
                drawn,
            ),
        match old(state)@.machine_key_seed {
            Some(seed) => {
                &&& final(state)@ == old(state)@
                &&& seed.len() == 32 ==> {
                    &&& choice is Ok
                    &&& choice->Ok_0.key@ == seed
                    &&& !choice->Ok_0.fresh
                }
                &&& seed.len() != 32 ==> choice == Err::<KeyChoice, AgentError>(
                    AgentError::BadKeySeed,
                )
            },
            None => match choice {
                Ok(made) => {
                    &&& made.fresh
                    &&& final(state)@ == old(state)@.with_seed(made.key@)
                },
                Err(error) => {
                    &&& error == AgentError::NoRandomness
                    &&& final(state)@ == old(state)@
                },
            },
        },
{
    let drawn: Option<[u8; 32]> = if state.machine_key_seed.is_none() {
        os_random_seed()
    } else {
        None
    };
    let ghost seed = array_of(drawn);
    assert(drawn_sized(seed));
    settle_key(state, drawn)
}

/// A persisted seed of 32 bytes is the key, whatever was drawn, and the state stays as it is;
/// one of another length is refused. Without a persisted seed the drawn one is the key, as a
/// new one, and the state differs from what it was by that seed alone; and without a draw
/// there is no key and no change.
pub proof fn law_key_settling(state: StateView, drawn: Option<Seq<u8>>)
    ensures
        ({
            let (after, choice) = key_settled(state, drawn);
            &&& after.server_identity == state.server_identity
            &&& after.machine_id == state.machine_id
            &&& after.session_token == state.session_token
            &&& state.machine_key_seed matches Some(seed) ==> {
                &&& after.machine_key_seed == Some(seed)
                &&& seed.len() == 32 ==> choice == Ok::<(Seq<u8>, bool), ErrorView>((seed, false))
                &&& seed.len() != 32 ==> choice == Err::<(Seq<u8>, bool), ErrorView>(
                    ErrorView::BadKeySeed,
                )
            }
            &&& state.machine_key_seed is None ==> {
                &&& after.machine_key_seed == drawn
                &&& drawn matches Some(seed) ==> choice == Ok::<(Seq<u8>, bool), ErrorView>(
                    (seed, true),
                )
                &&& drawn is None ==> choice == Err::<(Seq<u8>, bool), ErrorView>(
                    ErrorView::NoRandomness,
                )
            }
        }),
{
}

} // verus!
