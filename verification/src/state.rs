//! Machine-scoped persistent state: the agent's Ed25519 identity-key seed, the pinned
//! server identity, and the registered machine id with its session token.

use vstd::prelude::*;

verus! {

/// What the agent keeps between runs.
#[derive(Debug)]
pub struct AgentState {
    /// 32-byte Ed25519 machine identity signing-key seed.
    pub machine_key_seed: Option<Vec<u8>>,
    /// The pinned server identity public key (Ed25519, 32 bytes).
    pub server_identity: Option<Vec<u8>>,
    /// The server-assigned machine id, once registered.
    pub machine_id: Option<String>,
    /// The current machine session token (the bearer for check-in and subscribe).
    pub session_token: Option<String>,
}

/// The mathematical content of an [`AgentState`].
#[verifier::ext_equal]
pub struct StateView {
    pub machine_key_seed: Option<Seq<u8>>,
    pub server_identity: Option<Seq<u8>>,
    pub machine_id: Option<Seq<char>>,
    pub session_token: Option<Seq<char>>,
}

/// The bytes inside an optional vector.
pub open spec fn bytes_of(bytes: Option<Vec<u8>>) -> Option<Seq<u8>> {
    match bytes {
        Some(b) => Some(b@),
        None => None,
    }
}

/// The characters inside an optional string.
pub open spec fn text_of(text: Option<String>) -> Option<Seq<char>> {
    match text {
        Some(t) => Some(t@),
        None => None,
    }
}

impl View for AgentState {
    type V = StateView;

    open spec fn view(&self) -> StateView {
        StateView {
            machine_key_seed: bytes_of(self.machine_key_seed),
            server_identity: bytes_of(self.server_identity),
            machine_id: text_of(self.machine_id),
            session_token: text_of(self.session_token),
        }
    }
}

impl StateView {
    /// The state of a machine that has never run the agent.
    pub open spec fn blank() -> StateView {
        StateView {
            machine_key_seed: None,
            server_identity: None,
            machine_id: None,
            session_token: None,
        }
    }

    /// This state with the machine key seed set.
    pub open spec fn with_seed(self, seed: Seq<u8>) -> StateView {
        StateView { machine_key_seed: Some(seed), ..self }
    }

    /// This state with the server identity pinned.
    pub open spec fn with_pin(self, identity: Seq<u8>) -> StateView {
        StateView { server_identity: Some(identity), ..self }
    }

    /// This state with a registration recorded.
    pub open spec fn with_session(self, machine_id: Seq<char>, token: Seq<char>) -> StateView {
        StateView { machine_id: Some(machine_id), session_token: Some(token), ..self }
    }
}

/// What became of reading the state file and of parsing what it held.
#[derive(Debug)]
pub enum LoadOutcome {
    /// The file was read and holds this state.
    Parsed(AgentState),
    /// The file was read, and its contents are no state.
    Malformed(String),
    /// There is no such file.
    Missing,
    /// The file is there and could not be read.
    Unreadable(String),
}

/// The mathematical content of a [`LoadOutcome`].
pub enum LoadView {
    Parsed(StateView),
    Malformed(Seq<char>),
    Missing,
    Unreadable(Seq<char>),
}

impl View for LoadOutcome {
    type V = LoadView;

    open spec fn view(&self) -> LoadView {
        match *self {
            LoadOutcome::Parsed(state) => LoadView::Parsed(state@),
            LoadOutcome::Malformed(cause) => LoadView::Malformed(cause@),
            LoadOutcome::Missing => LoadView::Missing,
            LoadOutcome::Unreadable(cause) => LoadView::Unreadable(cause@),
        }
    }
}

/// The state to start from: what the file held, or a blank one if there is no file. The
/// other outcomes are errors, with their causes.
pub open spec fn loaded(outcome: LoadView) -> Result<StateView, Seq<char>> {
    match outcome {
        LoadView::Parsed(state) => Ok(state),
        LoadView::Missing => Ok(StateView::blank()),
        LoadView::Malformed(cause) => Err(cause),
        LoadView::Unreadable(cause) => Err(cause),
    }
}

/// One file operation of a save.
#[derive(Debug)]
pub enum SaveStep {
    /// Create this directory and those above it.
    CreateDirs(String),
    /// Write the state to the file at this path, replacing what it held.
    Write { path: String, state: AgentState },
}

/// The mathematical content of a [`SaveStep`].
pub enum SaveStepView {
    CreateDirs(Seq<char>),
    Write { path: Seq<char>, state: StateView },
}

impl View for SaveStep {
    type V = SaveStepView;

    open spec fn view(&self) -> SaveStepView {
        match *self {
            SaveStep::CreateDirs(dir) => SaveStepView::CreateDirs(dir@),
            SaveStep::Write { path, state } => SaveStepView::Write { path: path@, state: state@ },
        }
    }
}

/// The operations that put `state` into the file at `path`, in the order in which they
/// run: the parent directory first, where the path names one.
pub open spec fn save_steps(
    state: StateView,
    path: Seq<char>,
    parent: Option<Seq<char>>,
) -> Seq<SaveStepView> {
    let write = SaveStepView::Write { path, state };
    match parent {
        Some(dir) => if dir.len() > 0 {
            seq![SaveStepView::CreateDirs(dir), write]
        } else {
            seq![write]
        },
        None => seq![write],
    }
}

/// A copy of an optional byte vector.
fn copy_bytes(bytes: &Option<Vec<u8>>) -> (copy: Option<Vec<u8>>)
    ensures
        bytes_of(copy) == bytes_of(*bytes),
{
    match bytes {
        Some(b) => Some(vstd::slice::slice_to_vec(b.as_slice())),
        None => None,
    }
}

/// A copy of an optional string.
fn copy_text(text: &Option<String>) -> (copy: Option<String>)
    ensures
        text_of(copy) == text_of(*text),
{
    match text {
        Some(t) => Some(t.clone()),
        None => None,
    }
}

impl Default for AgentState {
    fn default() -> (state: AgentState)
        ensures
            state@ == StateView::blank(),
    {
        AgentState {
            machine_key_seed: None,
            server_identity: None,
            machine_id: None,
            session_token: None,
        }
    }
}

impl AgentState {
    /// The state to start from: the one that was read, or a fresh default if the file
    /// does not exist yet. Any other outcome is an error, whose cause is handed back.
    pub fn load(outcome: LoadOutcome) -> (state: Result<AgentState, String>)
        ensures
            match loaded(outcome@) {
                Ok(expected) => state is Ok && state->Ok_0@ == expected,
                Err(cause) => state is Err && state->Err_0@ == cause,
            },
            outcome matches LoadOutcome::Parsed(parsed) ==> state == Ok::<AgentState, String>(
                parsed,
            ),
            outcome is Missing ==> (state matches Ok(blank) && blank.machine_key_seed is None
                && blank.server_identity is None && blank.machine_id is None
                && blank.session_token is None),
            outcome matches LoadOutcome::Malformed(cause) ==> state == Err::<AgentState, String>(
                cause,
            ),
            outcome matches LoadOutcome::Unreadable(cause) ==> state == Err::<AgentState, String>(
                cause,
            ),
    {
        match outcome {
            LoadOutcome::Parsed(state) => Ok(state),
            LoadOutcome::Missing => Ok(AgentState::default()),
            LoadOutcome::Malformed(cause) => Err(cause),
            LoadOutcome::Unreadable(cause) => Err(cause),
        }
    }

    /// The file operations that persist this state at `path`, whose parent directory is
    /// `parent`. They run in order, and the first that fails ends the save.
    pub fn save(&self, path: String, parent: Option<String>) -> (steps: Vec<SaveStep>)
        ensures
            steps@.map_values(|step: SaveStep| step@) == save_steps(self@, path@, text_of(parent)),
            steps@.len() == if parent is Some && parent->Some_0@.len() > 0 {
                2int
            } else {
                1int
            },
            steps@.len() == 2 ==> (steps@[0] matches SaveStep::CreateDirs(dir) && dir@
                == parent->Some_0@),
            steps@.last() matches SaveStep::Write { path: target, state } && target@ == path@
                && state@ == self@,
    {
        let mut steps: Vec<SaveStep> = Vec::new();
        if let Some(dir) = parent {
            if !dir.as_str().is_empty() {
                steps.push(SaveStep::CreateDirs(dir));
            }
        }
        steps.push(SaveStep::Write { path, state: self.copied() });
        steps
    }

    /// A copy of this state.
    pub fn copied(&self) -> (copy: AgentState)
        ensures
            copy@ == self@,
    {
        AgentState {
            machine_key_seed: copy_bytes(&self.machine_key_seed),
            server_identity: copy_bytes(&self.server_identity),
            machine_id: copy_text(&self.machine_id),
            session_token: copy_text(&self.session_token),
        }
    }
}

/// A blank state holds nothing, and each update sets what it names and leaves all else.
pub proof fn law_state_updates(
    state: StateView,
    seed: Seq<u8>,
    identity: Seq<u8>,
    machine_id: Seq<char>,
    token: Seq<char>,
)
    ensures
        StateView::blank().machine_key_seed is None,
        StateView::blank().server_identity is None,
        StateView::blank().machine_id is None,
        StateView::blank().session_token is None,
        state.with_seed(seed) == (StateView {
            machine_key_seed: Some(seed),
            server_identity: state.server_identity,
            machine_id: state.machine_id,
            session_token: state.session_token,
        }),
        state.with_pin(identity) == (StateView {
            machine_key_seed: state.machine_key_seed,
            server_identity: Some(identity),
            machine_id: state.machine_id,
            session_token: state.session_token,
        }),
        state.with_session(machine_id, token) == (StateView {
            machine_key_seed: state.machine_key_seed,
            server_identity: state.server_identity,
            machine_id: Some(machine_id),
            session_token: Some(token),
        }),
{
}

/// A load gives the state that was parsed, a blank one where there is no file, and else the
/// cause of what went wrong.
pub proof fn law_load_outcomes(state: StateView, cause: Seq<char>)
    ensures
        loaded(LoadView::Parsed(state)) == Ok::<StateView, Seq<char>>(state),
        loaded(LoadView::Missing) == Ok::<StateView, Seq<char>>(
            StateView {
                machine_key_seed: None,
                server_identity: None,
                machine_id: None,
                session_token: None,
            },
        ),
        loaded(LoadView::Malformed(cause)) == Err::<StateView, Seq<char>>(cause),
        loaded(LoadView::Unreadable(cause)) == Err::<StateView, Seq<char>>(cause),
{
}

/// A save into a directory that the path names creates it first, and then writes the state
/// to the path; a save beside the program only writes.
pub proof fn law_save_creates_the_directory_first(
    state: StateView,
    path: Seq<char>,
    parent: Option<Seq<char>>,
)
    ensures
        ({
            let steps = save_steps(state, path, parent);
            let named = parent is Some && parent->Some_0.len() > 0;
            &&& named ==> steps.len() == 2 && steps[0] == SaveStepView::CreateDirs(parent->Some_0)
            &&& !named ==> steps.len() == 1
            &&& steps.last() == (SaveStepView::Write { path, state })
        }),
{
}

/// A save loses nothing of the state and a load adds nothing to it: the last operation of a
/// save writes to the path all that the state holds, and that same content, read back as
/// the file's, is the state to start from. An absent field and an empty one stay apart.
pub proof fn law_load_gives_back_what_save_wrote(
    state: StateView,
    path: Seq<char>,
    parent: Option<Seq<char>>,
)
    ensures
        ({
            let last = save_steps(state, path, parent).last();
            &&& last is Write
            &&& last->path == path
            &&& loaded(LoadView::Parsed(last->state)) == Ok::<StateView, Seq<char>>(state)
        }),
{
}

} // verus!
