//! What the mathematical content of each type keeps of a value: every variant, and every part
//! of it.

use vstd::prelude::*;
use crate::agent::{
    Action, ActionView, Agent, AgentView, Event, EventView, Phase, PhaseView, TrustDecision,
};
use crate::authed::AuthedRequest;
use crate::config::Config;
use crate::error::{AgentError, ConnectFailure, ConnectFailureView, ErrorView};
use crate::key::{KeyChoice, MachineKey};
use crate::registration::{MachineSession, RegisterMachineRequest};
use crate::session::{
    CheckInAction, CheckInActionView, CheckInEvent, CheckInEventView, CheckInRequest, Empty,
    PushPayload, SubscribeAction, SubscribeActionView, SubscribeEvent, SubscribeEventView,
};
use crate::state::{AgentState, LoadOutcome, LoadView, SaveStep, SaveStepView};

verus! {

/// An optional value's content is there exactly where the value is, and is all of it.
pub proof fn law_optional_contents(text: String, bytes: Vec<u8>, array: [u8; 32])
    ensures
        crate::state::text_of(Some(text)) == Some(text@),
        crate::state::text_of(None) is None,
        crate::state::bytes_of(Some(bytes)) == Some(bytes@),
        crate::state::bytes_of(None) is None,
        crate::key::array_of(Some(array)) == Some(array@),
        crate::key::array_of(None) is None,
        crate::key::drawn_sized(None),
        crate::key::drawn_sized(Some(bytes@)) <==> bytes@.len() == 32,
{
}

/// A key's content is its seed, and a choice of key keeps the key and whether it is new.
pub proof fn law_key_contents(key: MachineKey, choice: KeyChoice, error: AgentError)
    ensures
        key@ == key.seed@,
        crate::key::choice_of(Ok(choice)) == Ok::<(Seq<u8>, bool), ErrorView>(
            (choice.key.seed@, choice.fresh),
        ),
        crate::key::choice_of(Err(error)) == Err::<(Seq<u8>, bool), ErrorView>(error@),
{
}

/// The content of a state has each of its four parts, or lacks what the state lacks.
pub proof fn law_state_contents(state: AgentState)
    ensures
        match state.machine_key_seed {
            Some(seed) => state@.machine_key_seed == Some(seed@),
            None => state@.machine_key_seed is None,
        },
        match state.server_identity {
            Some(identity) => state@.server_identity == Some(identity@),
            None => state@.server_identity is None,
        },
        match state.machine_id {
            Some(machine_id) => state@.machine_id == Some(machine_id@),
            None => state@.machine_id is None,
        },
        match state.session_token {
            Some(token) => state@.session_token == Some(token@),
            None => state@.session_token is None,
        },
{
}

/// The contents of what a load gave and of what a save does.
pub proof fn law_file_contents(state: AgentState, text: String)
    ensures
        LoadOutcome::Parsed(state)@ == LoadView::Parsed(state@),
        LoadOutcome::Malformed(text)@ == LoadView::Malformed(text@),
        LoadOutcome::Missing@ == LoadView::Missing,
        LoadOutcome::Unreadable(text)@ == LoadView::Unreadable(text@),
        SaveStep::CreateDirs(text)@ == SaveStepView::CreateDirs(text@),
        (SaveStep::Write { path: text, state })@ == (SaveStepView::Write {
            path: text@,
            state: state@,
        }),
{
}

/// The content of a configuration has its three settings.
pub proof fn law_config_contents(config: Config)
    ensures
        config@.host == config.host@,
        config@.discovery_port == config.discovery_port,
        config@.state_path == config.state_path@,
{
}

/// The content of an error has its kind, its path and its cause.
pub proof fn law_error_contents(path: String, cause: String, failure: ConnectFailure)
    ensures
        ConnectFailure::IdentityMismatch@ == ConnectFailureView::IdentityMismatch,
        ConnectFailure::Other(cause)@ == ConnectFailureView::Other(cause@),
        (AgentError::LoadState { path, cause })@ == (ErrorView::LoadState {
            path: path@,
            cause: cause@,
        }),
        (AgentError::SaveState { cause })@ == (ErrorView::SaveState { cause: cause@ }),
        AgentError::BadKeySeed@ == ErrorView::BadKeySeed,
        AgentError::NoRandomness@ == ErrorView::NoRandomness,
        AgentError::BadServerIdentity@ == ErrorView::BadServerIdentity,
        AgentError::Connect(failure)@ == ErrorView::Connect(failure@),
        (AgentError::Register { cause })@ == (ErrorView::Register { cause: cause@ }),
        (AgentError::CheckIn { cause })@ == (ErrorView::CheckIn { cause: cause@ }),
        (AgentError::Subscribe { cause })@ == (ErrorView::Subscribe { cause: cause@ }),
        (AgentError::PushStream { cause })@ == (ErrorView::PushStream { cause: cause@ }),
{
}

/// How a run ended is kept: well where it ended well, and else with the error's content.
pub proof fn law_ending_contents(result: Result<(), AgentError>)
    ensures
        result is Ok <==> crate::session::ending(result) is Ok,
        result matches Err(error) ==> crate::session::ending(result) == Err::<(), ErrorView>(
            error@,
        ),
{
}

/// The content of a registration has its four parts.
pub proof fn law_registration_contents(request: RegisterMachineRequest)
    ensures
        request@.machine_identity_public == request.machine_identity_public@,
        request@.platform == request.platform@,
        request@.label == request.label@,
        request@.signature == request.signature@,
{
}

/// The content of each phase has the key or the token that the agent waits with.
pub proof fn law_phase_contents(key: MachineKey, token: String)
    ensures
        Phase::Loading@ == PhaseView::Loading,
        Phase::SavingKey(key)@ == PhaseView::SavingKey(key.seed@),
        Phase::Connecting(key)@ == PhaseView::Connecting(key.seed@),
        Phase::SavingPin(key)@ == PhaseView::SavingPin(key.seed@),
        Phase::Registering(key)@ == PhaseView::Registering(key.seed@),
        Phase::SavingSession(token)@ == PhaseView::SavingSession(token@),
        Phase::Running(token)@ == PhaseView::Running(token@),
        Phase::Stopped@ == PhaseView::Stopped,
{
}

/// The content of each event has all that the agent learns by it.
pub proof fn law_event_contents(
    outcome: LoadOutcome,
    cause: String,
    identity: [u8; 32],
    decision: TrustDecision,
    failure: ConnectFailure,
    session: MachineSession,
    result: Result<(), AgentError>,
)
    ensures
        Event::Loaded(outcome)@ == EventView::Loaded(outcome@),
        Event::Saved(Ok(()))@ matches EventView::Saved(Ok(_)),
        Event::Saved(Err(cause))@ == EventView::Saved(Err(cause@)),
        (Event::Connected { identity, decision })@ == (EventView::Connected {
            identity: identity@,
            decision,
        }),
        Event::ConnectFailed(failure)@ == EventView::ConnectFailed(failure@),
        Event::Registered(session)@ == (EventView::Registered {
            machine_id: session.machine_id@,
            token: session.token@,
        }),
        Event::RegisterFailed(cause)@ == EventView::RegisterFailed(cause@),
        Event::LoopEnded(result)@ == EventView::LoopEnded(crate::session::ending(result)),
        Event::Interrupted@ == EventView::Interrupted,
{
}

/// The content of each action has all that is asked for by it.
pub proof fn law_action_contents(
    text: String,
    state: AgentState,
    discovery_port: u16,
    pinned: [u8; 32],
    request: RegisterMachineRequest,
    result: Result<(), AgentError>,
)
    ensures
        (Action::Load { path: text })@ == (ActionView::Load { path: text@ }),
        (Action::Save { path: text, state })@ == (ActionView::Save {
            path: text@,
            state: state@,
        }),
        (Action::Connect { host: text, discovery_port, pinned: Some(pinned) })@ == (
        ActionView::Connect { host: text@, discovery_port, pinned: Some(pinned@) }),
        (Action::Connect { host: text, discovery_port, pinned: None })@ == (ActionView::Connect {
            host: text@,
            discovery_port,
            pinned: None,
        }),
        Action::Register(request)@ == ActionView::Register(request@),
        (Action::Run { token: text })@ == (ActionView::Run { token: text@ }),
        Action::Exit(result)@ == ActionView::Exit(crate::session::ending(result)),
{
}

/// The content of an agent has its settings, its state and its phase.
pub proof fn law_agent_contents(agent: Agent)
    ensures
        agent@.config == agent.config@,
        agent@.platform == agent.platform@,
        agent@.label == agent.label@,
        agent@.state == agent.state@,
        agent@.phase == agent.phase@,
{
}

/// A step that answers nothing changes nothing, and one that answers has exactly the agent and
/// the action that were due.
pub proof fn law_step_is_as_due(
    before: AgentView,
    due: AgentView,
    wanted: ActionView,
    after: AgentView,
    action: Action,
)
    ensures
        crate::agent::stepped(before, None, after, None) <==> after == before,
        !crate::agent::stepped(before, None, after, Some(action)),
        crate::agent::stepped(before, Some((due, wanted)), after, Some(action)) <==> after == due
            && action@ == wanted,
        !crate::agent::stepped(before, Some((due, wanted)), after, None),
{
}

/// The contents of what the check-in loop learns and does.
pub proof fn law_check_in_contents(
    secs: u64,
    cause: String,
    request: AuthedRequest<CheckInRequest>,
    error: AgentError,
)
    ensures
        CheckInEvent::Started@ == CheckInEventView::Started,
        (CheckInEvent::Ticked { elapsed_secs: secs })@ == (CheckInEventView::Ticked {
            elapsed_secs: secs,
        }),
        CheckInEvent::Accepted@ == CheckInEventView::Accepted,
        CheckInEvent::Failed(cause)@ == CheckInEventView::Failed(cause@),
        (CheckInAction::AwaitTick { due_secs: secs })@ == (CheckInActionView::AwaitTick {
            due_secs: secs,
        }),
        CheckInAction::Send(request)@ == (CheckInActionView::Send {
            agent_version: request.message.agent_version@,
            metadata: crate::authed::metadata_entries(request.metadata),
        }),
        CheckInAction::Stop(error)@ == CheckInActionView::Stop(error@),
{
}

/// The contents of what the push stream's reader learns and does.
pub proof fn law_subscription_contents(
    cause: String,
    payload: Option<PushPayload>,
    request: AuthedRequest<Empty>,
    result: Result<(), AgentError>,
)
    ensures
        SubscribeEvent::Started@ == SubscribeEventView::Started,
        SubscribeEvent::Opened@ == SubscribeEventView::Opened,
        SubscribeEvent::OpenFailed(cause)@ == SubscribeEventView::OpenFailed(cause@),
        SubscribeEvent::Pushed(payload)@ == SubscribeEventView::Pushed(payload),
        SubscribeEvent::StreamFailed(cause)@ == SubscribeEventView::StreamFailed(cause@),
        SubscribeEvent::Closed@ == SubscribeEventView::Closed,
        SubscribeAction::Open(request)@ == (SubscribeActionView::Open {
            message: request.message,
            metadata: crate::authed::metadata_entries(request.metadata),
        }),
        SubscribeAction::AwaitPush(payload)@ == SubscribeActionView::AwaitPush(payload),
        SubscribeAction::Stop(result)@ == SubscribeActionView::Stop(
            crate::session::ending(result),
        ),
{
}

} // verus!
