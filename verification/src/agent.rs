//! From a cold start to the run loops: load the state, settle the machine key, connect to
//! a verified server and pin it, register, run. The agent learns one event at a time and
//! answers with the one action to perform next.

use vstd::prelude::*;
use crate::config::{Config, ConfigView};
use crate::error::{AgentError, ConnectFailure, ConnectFailureView, ErrorView};
use crate::key::{os_random_seed, settle_key, to_array32, KeyChoice, MachineKey};
use crate::registration::{
    record_registration, registration_request, MachineSession, RegisterMachineRequest,
    RegistrationView,
};
use crate::state::{AgentState, LoadOutcome, LoadView, StateView};

verus! {

/// How a verified server stands to the pinned identity.
#[derive(Clone, Copy, Debug, PartialEq, Eq, Structural)]
pub enum TrustDecision {
    /// Nothing was pinned: this is the first server that the machine meets.
    FirstContact,
    /// The server proved the pinned identity.
    Pinned,
}

/// What the agent is waiting for.
pub enum Phase {
    /// The state file.
    Loading,
    /// The new machine key to be persisted.
    SavingKey(MachineKey),
    /// A verified connection.
    Connecting(MachineKey),
    /// The newly pinned server identity to be persisted.
    SavingPin(MachineKey),
    /// The server's answer to the registration.
    Registering(MachineKey),
    /// The registration to be persisted.
    SavingSession(String),
    /// The run loops to end.
    Running(String),
    /// Nothing more.
    Stopped,
}

/// The mathematical content of a [`Phase`].
pub enum PhaseView {
    Loading,
    SavingKey(Seq<u8>),
    Connecting(Seq<u8>),
    SavingPin(Seq<u8>),
    Registering(Seq<u8>),
    SavingSession(Seq<char>),
    Running(Seq<char>),
    Stopped,
}

impl View for Phase {
    type V = PhaseView;

    open spec fn view(&self) -> PhaseView {
        match *self {
            Phase::Loading => PhaseView::Loading,
            Phase::SavingKey(key) => PhaseView::SavingKey(key@),
            Phase::Connecting(key) => PhaseView::Connecting(key@),
            Phase::SavingPin(key) => PhaseView::SavingPin(key@),
            Phase::Registering(key) => PhaseView::Registering(key@),
            Phase::SavingSession(token) => PhaseView::SavingSession(token@),
            Phase::Running(token) => PhaseView::Running(token@),
            Phase::Stopped => PhaseView::Stopped,
        }
    }
}

/// What the agent learns.
pub enum Event {
    /// The state file was looked at.
    Loaded(LoadOutcome),
    /// The state was persisted, or could not be.
    Saved(Result<(), String>),
    /// A server was discovered and verified, and proved this identity.
    Connected { identity: [u8; 32], decision: TrustDecision },
    /// No verified connection came about.
    ConnectFailed(ConnectFailure),
    /// The server registered the machine.
    Registered(MachineSession),
    /// The registration failed.
    RegisterFailed(String),
    /// One of the run loops ended.
    LoopEnded(Result<(), AgentError>),
    /// The operator asked the agent to shut down.
    Interrupted,
}

/// The mathematical content of an [`Event`].
pub enum EventView {
    Loaded(LoadView),
    Saved(Result<(), Seq<char>>),
    Connected { identity: Seq<u8>, decision: TrustDecision },
    ConnectFailed(ConnectFailureView),
    Registered { machine_id: Seq<char>, token: Seq<char> },
    RegisterFailed(Seq<char>),
    LoopEnded(Result<(), ErrorView>),
    Interrupted,
}

impl View for Event {
    type V = EventView;

    open spec fn view(&self) -> EventView {
        match *self {
            Event::Loaded(outcome) => EventView::Loaded(outcome@),
            Event::Saved(Ok(_)) => EventView::Saved(Ok(())),
            Event::Saved(Err(cause)) => EventView::Saved(Err(cause@)),
            Event::Connected { identity, decision } => EventView::Connected {
                identity: identity@,
                decision,
            },
            Event::ConnectFailed(failure) => EventView::ConnectFailed(failure@),
            Event::Registered(session) => EventView::Registered {
                machine_id: session.machine_id@,
                token: session.token@,
            },
            Event::RegisterFailed(cause) => EventView::RegisterFailed(cause@),
            Event::LoopEnded(result) => EventView::LoopEnded(crate::session::ending(result)),
            Event::Interrupted => EventView::Interrupted,
        }
    }
}

/// What the agent wants done.
pub enum Action {
    /// Read the state file.
    Load { path: String },
    /// Persist this state at this path.
    Save { path: String, state: AgentState },
    /// Discover a server there and verify it, against the pinned identity if there is one.
    Connect { host: String, discovery_port: u16, pinned: Option<[u8; 32]> },
    /// Send this registration.
    Register(RegisterMachineRequest),
    /// Run the check-in loop and the push stream's reader with this token.
    Run { token: String },
    /// Leave the program with this result.
    Exit(Result<(), AgentError>),
}

/// The mathematical content of an [`Action`].
pub enum ActionView {
    Load { path: Seq<char> },
    Save { path: Seq<char>, state: StateView },
    Connect { host: Seq<char>, discovery_port: u16, pinned: Option<Seq<u8>> },
    Register(RegistrationView),
    Run { token: Seq<char> },
    Exit(Result<(), ErrorView>),
}

impl View for Action {
    type V = ActionView;

    open spec fn view(&self) -> ActionView {
        match *self {
            Action::Load { path } => ActionView::Load { path: path@ },
            Action::Save { path, state } => ActionView::Save { path: path@, state: state@ },
            Action::Connect { host, discovery_port, pinned } => ActionView::Connect {
                host: host@,
                discovery_port,
                pinned: crate::key::array_of(pinned),
            },
            Action::Register(request) => ActionView::Register(request@),
            Action::Run { token } => ActionView::Run { token: token@ },
            Action::Exit(result) => ActionView::Exit(crate::session::ending(result)),
        }
    }
}

/// The agent between two events.
pub struct Agent {
    pub config: Config,
    pub platform: String,
    pub label: String,
    pub state: AgentState,
    pub phase: Phase,
}

/// The mathematical content of an [`Agent`].
#[verifier::ext_equal]
pub struct AgentView {
    pub config: ConfigView,
    pub platform: Seq<char>,
    pub label: Seq<char>,
    pub state: StateView,
    pub phase: PhaseView,
}

impl View for Agent {
    type V = AgentView;

    open spec fn view(&self) -> AgentView {
        AgentView {
            config: self.config@,
            platform: self.platform@,
            label: self.label@,
            state: self.state@,
            phase: self.phase@,
        }
    }
}

impl AgentView {
    /// The agent before it has learned anything.
    pub open spec fn cold(config: ConfigView, platform: Seq<char>, label: Seq<char>) -> AgentView {
        AgentView { config, platform, label, state: StateView::blank(), phase: PhaseView::Loading }
    }

    /// Ends the program.
    pub open spec fn exit(self, result: Result<(), ErrorView>) -> (AgentView, ActionView) {
        (AgentView { phase: PhaseView::Stopped, ..self }, ActionView::Exit(result))
    }

    /// Has the state persisted, and waits for that in `phase`.
    pub open spec fn save(self, phase: PhaseView) -> (AgentView, ActionView) {
        (
            AgentView { phase, ..self },
            ActionView::Save { path: self.config.state_path, state: self.state },
        )
    }

    /// Reaches out to the server, under the pinned identity if there is one. A pinned
    /// identity of the wrong length is not replaced: the agent stops.
    pub open spec fn connect(self, key: Seq<u8>) -> (AgentView, ActionView) {
        match self.state.server_identity {
            Some(identity) if identity.len() != 32 => self.exit(Err(ErrorView::BadServerIdentity)),
            pinned => (
                AgentView { phase: PhaseView::Connecting(key), ..self },
                ActionView::Connect {
                    host: self.config.host,
                    discovery_port: self.config.discovery_port,
                    pinned,
                },
            ),
        }
    }

    /// Registers the machine.
    pub open spec fn register(self, key: Seq<u8>) -> (AgentView, ActionView) {
        (
            AgentView { phase: PhaseView::Registering(key), ..self },
            ActionView::Register(
                crate::registration::registration(key, self.platform, self.label),
            ),
        )
    }

    /// Settles the machine key: the persisted one where there is one, else the drawn one,
    /// which is persisted before anything else happens. Where none could be drawn either, the
    /// agent stops.
    pub open spec fn settle_key(self, drawn: Option<Seq<u8>>) -> (AgentView, ActionView) {
        let (state, choice) = crate::key::key_settled(self.state, drawn);
        let keyed = AgentView { state, ..self };
        match choice {
            Ok((seed, true)) => keyed.save(PhaseView::SavingKey(seed)),
            Ok((seed, false)) => keyed.connect(seed),
            Err(error) => keyed.exit(Err(error)),
        }
    }

    /// Whether answering an event takes a new machine key: where the state that is loaded
    /// holds none.
    pub open spec fn needs_key(self, event: EventView) -> bool {
        match (self.phase, event) {
            (PhaseView::Loading, EventView::Loaded(outcome)) => {
                crate::state::loaded(outcome) matches Ok(state) && state.machine_key_seed is None
            },
            _ => false,
        }
    }

    /// What the agent becomes upon an event, and the action it asks for; `None` where it is
    /// not waiting for such an event. `drawn` is the seed of a new machine key, if one could
    /// be drawn; it matters only where [`AgentView::needs_key`] holds.
    pub open spec fn next(self, event: EventView, drawn: Option<Seq<u8>>) -> Option<
        (AgentView, ActionView),
    > {
        match (self.phase, event) {
            (PhaseView::Loading, EventView::Loaded(outcome)) => Some(
                match crate::state::loaded(outcome) {
                    Ok(state) => AgentView { state, ..self }.settle_key(drawn),
                    Err(cause) => self.exit(
                        Err(ErrorView::LoadState { path: self.config.state_path, cause }),
                    ),
                },
            ),
            (PhaseView::SavingKey(key), EventView::Saved(result)) => Some(
                match result {
                    Ok(_) => self.connect(key),
                    Err(cause) => self.exit(Err(ErrorView::SaveState { cause })),
                },
            ),
            (PhaseView::Connecting(key), EventView::Connected { identity, decision }) => Some(
                match decision {
                    TrustDecision::FirstContact => AgentView {
                        state: self.state.with_pin(identity),
                        ..self
                    }.save(PhaseView::SavingPin(key)),
                    TrustDecision::Pinned => self.register(key),
                },
            ),
            (PhaseView::Connecting(key), EventView::ConnectFailed(failure)) => Some(
                self.exit(Err(ErrorView::Connect(failure))),
            ),
            (PhaseView::SavingPin(key), EventView::Saved(result)) => Some(
                match result {
                    Ok(_) => self.register(key),
                    Err(cause) => self.exit(Err(ErrorView::SaveState { cause })),
                },
            ),
            (PhaseView::Registering(key), EventView::Registered { machine_id, token }) => Some(
                AgentView { state: self.state.with_session(machine_id, token), ..self }.save(
                    PhaseView::SavingSession(token),
                ),
            ),
            (PhaseView::Registering(key), EventView::RegisterFailed(cause)) => Some(
                self.exit(Err(ErrorView::Register { cause })),
            ),
            (PhaseView::SavingSession(token), EventView::Saved(result)) => Some(
                match result {
                    Ok(_) => (
                        AgentView { phase: PhaseView::Running(token), ..self },
                        ActionView::Run { token },
                    ),
                    Err(cause) => self.exit(Err(ErrorView::SaveState { cause })),
                },
            ),
            (PhaseView::Running(token), EventView::LoopEnded(result)) => Some(self.exit(result)),
            (PhaseView::Running(token), EventView::Interrupted) => Some(self.exit(Ok(()))),
            _ => None,
        }
    }
}

impl Agent {
    /// A cold agent, and the first thing it wants done: its state to be read.
    pub fn start(config: Config, platform: String, label: String) -> (started: (Agent, Action))
        ensures
            started.0@ == AgentView::cold(config@, platform@, label@),
            started.1@ == (ActionView::Load { path: config@.state_path }),
            started.0.config == config,
            started.0.platform == platform,
            started.0.label == label,
            started.0.phase is Loading,
            started.1 matches Action::Load { path } && path@ == config.state_path@,
    {
        let path: String = config.state_path.clone();
        let agent = Agent {
            config,
            platform,
            label,
            state: AgentState::default(),
            phase: Phase::Loading,
        };
        (agent, Action::Load { path })
    }

    /// Ends the program.
    fn exit(&mut self, result: Result<(), AgentError>) -> (action: Action)
        ensures
            (final(self)@, action@) == old(self)@.exit(crate::session::ending(result)),
    {
        self.phase = Phase::Stopped;
        Action::Exit(result)
    }

    /// Has the state persisted, and waits for that in `phase`.
    fn save(&mut self, phase: Phase) -> (action: Action)
        ensures
            (final(self)@, action@) == old(self)@.save(phase@),
    {
        self.phase = phase;
        Action::Save { path: self.config.state_path.clone(), state: self.state.copied() }
    }

    /// The pinned server identity, if there is one; an error if it is not 32 bytes long.
    pub fn pinned_identity(&self) -> (pinned: Result<Option<[u8; 32]>, AgentError>)
        ensures
            match self@.state.server_identity {
                None => pinned == Ok::<Option<[u8; 32]>, AgentError>(None),
                Some(identity) => {
                    &&& identity.len() == 32 ==> pinned is Ok && crate::key::array_of(pinned->Ok_0) == Some(
                        identity,
                    )
                    &&& identity.len() != 32 ==> pinned == Err::<Option<[u8; 32]>, AgentError>(
                        AgentError::BadServerIdentity,
                    )
                },
            },
    {
        match &self.state.server_identity {
            Some(bytes) => match to_array32(bytes.as_slice()) {
                Some(identity) => Ok(Some(identity)),
                None => Err(AgentError::BadServerIdentity),
            },
            None => Ok(None),
        }
    }

    /// Reaches out to the server.
    fn connect(&mut self, key: MachineKey) -> (action: Action)
        ensures
            (final(self)@, action@) == old(self)@.connect(key@),
    {
        match self.pinned_identity() {
            Ok(pinned) => {
                self.phase = Phase::Connecting(key);
                Action::Connect {
                    host: self.config.host.clone(),
                    discovery_port: self.config.discovery_port,
                    pinned,
                }
            },
            Err(error) => self.exit(Err(error)),
        }
    }

    /// Registers the machine.
    fn register(&mut self, key: MachineKey) -> (action: Action)
        ensures
            (final(self)@, action@) == old(self)@.register(key@),
    {
        self.phase = Phase::Registering(key);
        Action::Register(
            registration_request(&key, self.platform.as_str(), self.label.as_str()),
        )
    }

    /// Goes on with a key that the state already holds: a fresh one is persisted first.
    pub fn use_key(&mut self, choice: KeyChoice) -> (action: Action)
        ensures
            (final(self)@, action@) == (if choice.fresh {
                old(self)@.save(PhaseView::SavingKey(choice.key@))
            } else {
                old(self)@.connect(choice.key@)
            }),
    {
        if choice.fresh {
            self.save(Phase::SavingKey(choice.key))
        } else {
            self.connect(choice.key)
        }
    }

    /// Settles the machine key with what was drawn for a new one, and goes on with it.
    pub fn settle_key(&mut self, drawn: Option<[u8; 32]>) -> (action: Action)
        ensures
            (final(self)@, action@) == old(self)@.settle_key(crate::key::array_of(drawn)),
    {
        match settle_key(&mut self.state, drawn) {
            Ok(choice) => self.use_key(choice),
            Err(error) => self.exit(Err(error)),
        }
    }

    /// Starts from what the state file gave, with what was drawn for a new machine key.
    fn on_loaded(&mut self, outcome: LoadOutcome, drawn: Option<[u8; 32]>) -> (action: Action)
        requires
            old(self)@.phase is Loading,
        ensures
            old(self)@.next(EventView::Loaded(outcome@), crate::key::array_of(drawn)) == Some(
                (final(self)@, action@),
            ),
    {
        match AgentState::load(outcome) {
            Ok(state) => {
                self.state = state;
                self.settle_key(drawn)
            },
            Err(cause) => {
                let path: String = self.config.state_path.clone();
                self.exit(Err(AgentError::LoadState { path, cause }))
            },
        }
    }

    /// Answers any event but the loading of the state.
    fn on_event(&mut self, event: Event) -> (action: Option<Action>)
        requires
            !(event is Loaded),
        ensures
            forall|drawn: Option<Seq<u8>>|
                stepped(
                    old(self)@,
                    #[trigger] old(self)@.next(event@, drawn),
                    final(self)@,
                    action,
                ),
    {
        match event {
            Event::Saved(result) => {
                match result {
                    Ok(_) => match &self.phase {
                        Phase::SavingKey(key) => {
                            let key: MachineKey = *key;
                            Some(self.connect(key))
                        },
                        Phase::SavingPin(key) => {
                            let key: MachineKey = *key;
                            Some(self.register(key))
                        },
                        Phase::SavingSession(token) => {
                            let token: String = token.clone();
                            self.phase = Phase::Running(token.clone());
                            Some(Action::Run { token })
                        },
                        _ => None,
                    },
                    Err(cause) => match &self.phase {
                        Phase::SavingKey(_) | Phase::SavingPin(_) | Phase::SavingSession(_) => Some(
                            self.exit(Err(AgentError::SaveState { cause })),
                        ),
                        _ => None,
                    },
                }
            },
            Event::Connected { identity, decision } => match &self.phase {
                Phase::Connecting(key) => {
                    let key: MachineKey = *key;
                    match decision {
                        TrustDecision::FirstContact => {
                            self.state.server_identity = Some(
                                vstd::slice::slice_to_vec(identity.as_slice()),
                            );
                            Some(self.save(Phase::SavingPin(key)))
                        },
                        TrustDecision::Pinned => Some(self.register(key)),
                    }
                },
                _ => None,
            },
            Event::ConnectFailed(failure) => match &self.phase {
                Phase::Connecting(_) => Some(self.exit(Err(AgentError::Connect(failure)))),
                _ => None,
            },
            Event::Registered(session) => match &self.phase {
                Phase::Registering(_) => {
                    let token: String = record_registration(&mut self.state, &session);
                    Some(self.save(Phase::SavingSession(token)))
                },
                _ => None,
            },
            Event::RegisterFailed(cause) => match &self.phase {
                Phase::Registering(_) => Some(self.exit(Err(AgentError::Register { cause }))),
                _ => None,
            },
            Event::LoopEnded(result) => match &self.phase {
                Phase::Running(_) => Some(self.exit(result)),
                _ => None,
            },
            Event::Interrupted => match &self.phase {
                Phase::Running(_) => Some(self.exit(Ok(()))),
                _ => None,
            },
            Event::Loaded(_) => None,
        }
    }

    /// Whether answering this event takes a new machine key: where the state that is loaded
    /// holds none.
    pub fn needs_key(&self, event: &Event) -> (needed: bool)
        ensures
            needed == self@.needs_key(event@),
    {
        match &self.phase {
            Phase::Loading => match event {
                Event::Loaded(LoadOutcome::Parsed(state)) => state.machine_key_seed.is_none(),
                Event::Loaded(LoadOutcome::Missing) => true,
                _ => false,
            },
            _ => false,
        }
    }

    /// Learns one event, with what was drawn for a new machine key, and gives the action to
    /// perform next. An event that the agent is not waiting for changes nothing and is answered
    /// with `None`.
    pub fn step_with(&mut self, event: Event, drawn: Option<[u8; 32]>) -> (action: Option<Action>)
        ensures
            stepped(
                old(self)@,
                old(self)@.next(event@, crate::key::array_of(drawn)),
                final(self)@,
                action,
            ),
            action matches Some(Action::Connect { host, discovery_port, pinned }) ==> {
                &&& host@ == old(self).config.host@
                &&& discovery_port == old(self).config.discovery_port
                &&& pinned matches Some(identity) ==> (final(self).state.server_identity matches Some(
                    kept,
                ) && identity@ == kept@)
                &&& pinned is None ==> final(self).state.server_identity is None
            },
            action matches Some(Action::Save { path, state }) ==> {
                &&& path@ == old(self).config.state_path@
                &&& state@ == final(self).state@
            },
            old(self).phase is Registering ==> (event matches Event::Registered(session) ==> {
                &&& final(self).state.machine_id matches Some(id) && id@ == session.machine_id@
                &&& final(self).state.session_token matches Some(token) && token@ == session.token@
                &&& final(self).phase matches Phase::SavingSession(token) && token@
                    == session.token@
                &&& action matches Some(Action::Save { path, state })
            }),
            old(self).phase matches Phase::SavingSession(held) ==> (event matches Event::Saved(
                Ok(_),
            ) ==> {
                &&& action matches Some(Action::Run { token }) && token@ == held@
                &&& final(self).phase matches Phase::Running(token) && token@ == held@
            }),
            old(self).phase is Running ==> (event matches Event::LoopEnded(result) ==> action
                matches Some(Action::Exit(ended)) && crate::session::ending(ended)
                == crate::session::ending(result)),
            final(self).config@ == old(self).config@,
            final(self).platform@ == old(self).platform@,
            final(self).label@ == old(self).label@,
    {
        match event {
            Event::Loaded(outcome) => match &self.phase {
                Phase::Loading => Some(self.on_loaded(outcome, drawn)),
                _ => None,
            },
            other => self.on_event(other),
        }
    }

    /// Learns one event and gives the action to perform next, as [`Agent::step_with`] does. A
    /// new machine key is drawn here where one is needed; every seed of 32 bytes may come out,
    /// or none.
    pub fn step(&mut self, event: Event) -> (action: Option<Action>)
        ensures
            exists|drawn: Option<Seq<u8>>|
                crate::key::drawn_sized(drawn) && stepped(
                    old(self)@,
                    #[trigger] old(self)@.next(event@, drawn),
                    final(self)@,
                    action,
                ),
            action matches Some(Action::Connect { host, discovery_port, pinned }) ==> {
                &&& host@ == old(self).config.host@
                &&& discovery_port == old(self).config.discovery_port
                &&& pinned matches Some(identity) ==> (final(self).state.server_identity matches Some(
                    kept,
                ) && identity@ == kept@)
                &&& pinned is None ==> final(self).state.server_identity is None
            },
            action matches Some(Action::Save { path, state }) ==> {
                &&& path@ == old(self).config.state_path@
                &&& state@ == final(self).state@
            },
            old(self).phase is Registering ==> (event matches Event::Registered(session) ==> {
                &&& final(self).state.machine_id matches Some(id) && id@ == session.machine_id@
                &&& final(self).state.session_token matches Some(token) && token@ == session.token@
                &&& final(self).phase matches Phase::SavingSession(token) && token@
                    == session.token@
                &&& action matches Some(Action::Save { path, state })
            }),
            old(self).phase matches Phase::SavingSession(held) ==> (event matches Event::Saved(
                Ok(_),
            ) ==> {
                &&& action matches Some(Action::Run { token }) && token@ == held@
                &&& final(self).phase matches Phase::Running(token) && token@ == held@
            }),
            old(self).phase is Running ==> (event matches Event::LoopEnded(result) ==> action
                matches Some(Action::Exit(ended)) && crate::session::ending(ended)
                == crate::session::ending(result)),
            final(self).config@ == old(self).config@,
            final(self).platform@ == old(self).platform@,
            final(self).label@ == old(self).label@,
    {
        let drawn: Option<[u8; 32]> = if self.needs_key(&event) {
            os_random_seed()
        } else {
            None
        };
        let ghost seed = crate::key::array_of(drawn);
        assert(crate::key::drawn_sized(seed));
        self.step_with(event, drawn)
    }
}

/// Whether a step from `before` did what `outcome` says: nothing where that is `None`.
pub open spec fn stepped(
    before: AgentView,
    outcome: Option<(AgentView, ActionView)>,
    after: AgentView,
    action: Option<Action>,
) -> bool {
    match outcome {
        None => after == before && action is None,
        Some((expected, wanted)) => after == expected && action is Some && action->Some_0@ == wanted,
    }
}

} // verus!
