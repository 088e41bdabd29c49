//! What the library's functions hand back, said of their arguments and results alone:
//! whatever a call may return, this holds of it.

use vstd::prelude::*;
use crate::agent::{Action, Agent, Event};
use crate::authed::AuthedRequest;
use crate::collector::{
    CollectError, FakeLocationCollector, FixStage, LocationCollector, LocationFix, Reading,
    ServiceAnswer, WindowsLocationCollector,
};
use crate::config::{Config, NotAPort};
use crate::error::{AgentError, ConnectFailure};
use crate::key::MachineKey;
use crate::registration::RegisterMachineRequest;
use crate::session::{Empty, Schedule, SubscribeAction, SubscribeEvent};
use crate::state::{AgentState, LoadOutcome, SaveStep};

verus! {

/// The fix that is collected has the reading's latitude and longitude bit for bit, signs
/// included, and the accuracy that the service reported, or no number where it reported none.
/// A failed call and a platform without the service each give their own error, and no fix.
pub proof fn law_collected(
    collector: WindowsLocationCollector,
    collected: Result<LocationFix, CollectError>,
)
    requires
        call_ensures(
            <WindowsLocationCollector as LocationCollector>::collect,
            (&collector,),
            collected,
        ),
    ensures
        match collector.answer {
            ServiceAnswer::NoService => collected matches Err(CollectError::Unsupported),
            ServiceAnswer::Failed { stage, cause } => collected matches Err(
                CollectError::Failed { stage: at, cause: why },
            ) && at == stage && why == cause,
            ServiceAnswer::Read(reading) => {
                &&& collected is Ok
                &&& collected->Ok_0.latitude == reading.latitude
                &&& collected->Ok_0.longitude == reading.longitude
                &&& reading.accuracy_m is Some ==> collected->Ok_0.accuracy_m
                    == reading.accuracy_m->Some_0
                &&& reading.accuracy_m is None ==> collected->Ok_0.accuracy_m
                    == 0x7ff8_0000_0000_0000u64
            },
        },
{
}

/// A reading becomes a fix with the same numbers.
pub proof fn law_fix_of_a_reading(reading: Reading, fix: LocationFix)
    requires
        call_ensures(crate::collector::fix_of_reading, (reading,), fix),
    ensures
        fix.latitude == reading.latitude,
        fix.longitude == reading.longitude,
        reading.accuracy_m is Some ==> fix.accuracy_m == reading.accuracy_m->Some_0,
        reading.accuracy_m is None ==> fix.accuracy_m == 0x7ff8_0000_0000_0000u64,
{
}

/// The collector without a sensor gives back the fix it was made with.
pub proof fn law_fake_fix(
    collector: FakeLocationCollector,
    collected: Result<LocationFix, CollectError>,
)
    requires
        call_ensures(
            <FakeLocationCollector as LocationCollector>::collect,
            (&collector,),
            collected,
        ),
    ensures
        collected is Ok,
        collected->Ok_0.latitude == collector.fix.latitude,
        collected->Ok_0.longitude == collector.fix.longitude,
        collected->Ok_0.accuracy_m == collector.fix.accuracy_m,
{
}

/// What the collector and the probe say of each failed call.
pub proof fn law_stage_words(stage: FixStage, said: String, probed: String)
    requires
        call_ensures(FixStage::context, (stage,), said),
        call_ensures(FixStage::probe_context, (stage,), probed),
    ensures
        match stage {
            FixStage::CreateLocator => said@ == "create Geolocator"@ && probed@ == said@,
            FixStage::RequestPosition => said@ == "GetGeopositionAsync"@ && probed@
                == "GetGeopositionAsync (call)"@,
            FixStage::AwaitFix => said@ == "awaiting a location fix (lfsvc off / no sensor?)"@
                && probed@
                == "awaiting a fix — location off, no consent, or no sensor in this context?"@,
            FixStage::Coordinate => said@ == "Coordinate"@ && probed@ == said@,
            FixStage::Point => said@ == "Point"@ && probed@ == said@,
            FixStage::Position => said@ == "Position"@ && probed@ == said@,
        },
{
}

/// An error of the collector names the call that failed in the collector's words and keeps
/// that call's own error; the platform's lack of a service has no error underneath.
pub proof fn law_collect_error_words(
    error: CollectError,
    said: String,
    cause: Option<String>,
    context: String,
)
    requires
        call_ensures(CollectError::message, (&error,), said),
        call_ensures(CollectError::cause, (&error,), cause),
        error matches CollectError::Failed { stage, cause } ==> call_ensures(
            FixStage::context,
            (stage,),
            context,
        ),
    ensures
        match error {
            CollectError::Unsupported => cause is None && said@
                == "location collection is only implemented on Windows"@,
            CollectError::Failed { stage, cause: why } => cause is Some && cause->Some_0@ == why@
                && said@ == context@,
        },
{
}

/// What the operator reads of each error of the agent, and what lies underneath it.
pub proof fn law_error_words(error: AgentError, said: String, cause: Option<String>)
    requires
        call_ensures(AgentError::message, (&error,), said),
        call_ensures(AgentError::cause, (&error,), cause),
    ensures
        match error {
            AgentError::LoadState { path, cause: why } => said@ == "loading agent state from "@
                + path@ && cause is Some && cause->Some_0@ == why@,
            AgentError::SaveState { cause: why } => said@ == why@ && cause is None,
            AgentError::BadKeySeed => said@ == "stored machine key seed is not 32 bytes"@
                && cause is None,
            AgentError::NoRandomness => said@ == "no randomness for a new machine key"@
                && cause is None,
            AgentError::BadServerIdentity => said@ == "stored server identity is not 32 bytes"@
                && cause is None,
            AgentError::Connect(ConnectFailure::IdentityMismatch) => said@
                == "server identity does not match the pinned key — refusing to connect (delete the agent state to re-pin a known-good server)"@
                && cause is None,
            AgentError::Connect(ConnectFailure::Other(detail)) => said@
                == "could not reach or verify the server: "@ + detail@ && cause is None,
            AgentError::Register { cause: why } => said@ == "register_machine failed"@
                && cause is Some && cause->Some_0@ == why@,
            AgentError::CheckIn { cause: why } => said@ == "check-in failed"@ && cause is Some
                && cause->Some_0@ == why@,
            AgentError::Subscribe { cause: why } => said@ == "subscribe failed"@ && cause is Some
                && cause->Some_0@ == why@,
            AgentError::PushStream { cause: why } => said@ == "server push stream error"@
                && cause is Some && cause->Some_0@ == why@,
        },
{
}

/// A failed connection reads the same by itself as it does as the agent's error.
pub proof fn law_connect_words(failure: ConnectFailure, described: String, said: String)
    requires
        call_ensures(crate::error::describe_connect, (&failure,), described),
        call_ensures(AgentError::message, (&AgentError::Connect(failure),), said),
    ensures
        described@ == said@,
        failure matches ConnectFailure::Other(detail) ==> described@
            == "could not reach or verify the server: "@ + detail@,
        failure is IdentityMismatch ==> described@
            == "server identity does not match the pinned key — refusing to connect (delete the agent state to re-pin a known-good server)"@,
{
}

/// A refused port setting is shown whole behind the name of the setting.
pub proof fn law_port_refusal_words(refused: NotAPort, said: String)
    requires
        call_ensures(NotAPort::message, (&refused,), said),
    ensures
        said@ == "SYLVA_SERVER_DISCOVERY_PORT is not a port: "@ + refused.setting@,
{
}

/// How two readings of a port relate: with one more digit behind it a port becomes ten times
/// the port and that digit, where sixteen bits hold that, and no port where they do not; what
/// is no port becomes none by it, the empty text and the bare plus sign aside; and with
/// anything but a digit behind it, nothing is a port.
pub proof fn law_parsed_port(
    text: &str,
    longer: &str,
    c: char,
    port: Option<u16>,
    longer_port: Option<u16>,
)
    requires
        longer@ == text@.push(c),
        call_ensures(crate::config::parse_port, (text,), port),
        call_ensures(crate::config::parse_port, (longer,), longer_port),
    ensures
        text@.len() == 0 ==> port is None,
        !('0' <= c <= '9') ==> longer_port is None,
        '0' <= c <= '9' && text@.len() == 0 ==> longer_port == Some((c as int - 48) as u16),
        '0' <= c <= '9' && text@.len() > 0 && text@ != seq!['+'] ==> match port {
            Some(port) => if port as int * 10 + (c as int - 48) <= 65535 {
                longer_port == Some((port as int * 10 + (c as int - 48)) as u16)
            } else {
                longer_port is None
            },
            None => longer_port is None,
        },
{
    crate::config::law_port_digit_by_digit(text@, c);
    if text@.len() == 0 {
        assert(text@ == Seq::<char>::empty());
        assert(longer@ == seq![c]);
    }
}

/// A plus sign before a port changes nothing of what is read, unless another one follows.
pub proof fn law_parsed_plus_sign(
    text: &str,
    signed: &str,
    port: Option<u16>,
    signed_port: Option<u16>,
)
    requires
        signed@ == seq!['+'] + text@,
        call_ensures(crate::config::parse_port, (text,), port),
        call_ensures(crate::config::parse_port, (signed,), signed_port),
    ensures
        text@.len() == 0 || text@[0] != '+' ==> signed_port == port,
        text@.len() > 0 && text@[0] == '+' ==> signed_port is None,
{
    crate::config::law_port_plus_sign(text@);
}

/// The configuration takes each setting that is there as it is and the port as it reads, has
/// a default for each that is not, and fails exactly on a port setting that reads as none.
pub proof fn law_configuration(
    host: Option<String>,
    port: Option<String>,
    state_path: Option<String>,
    text: &str,
    read: Option<u16>,
    config: Result<Config, NotAPort>,
)
    requires
        port is Some ==> text@ == port->Some_0@,
        call_ensures(crate::config::parse_port, (text,), read),
        call_ensures(Config::from_env, (host, port, state_path), config),
    ensures
        config is Err <==> port is Some && read is None,
        config is Err ==> config->Err_0.setting@ == port->Some_0@,
        config is Ok ==> {
            let made = config->Ok_0;
            &&& host is Some ==> made.host@ == host->Some_0@
            &&& host is None ==> made.host@ == "127.0.0.1"@
            &&& port is Some ==> Some(made.discovery_port) == read
            &&& port is None ==> made.discovery_port == 8443
            &&& state_path is Some ==> made.state_path@ == state_path->Some_0@
            &&& state_path is None ==> made.state_path@ == "sylva-agent-state.json"@
        },
{
}

/// A state without a file is one that holds nothing.
pub proof fn law_default_state(state: AgentState)
    requires
        call_ensures(<AgentState as Default>::default, (), state),
    ensures
        state.machine_key_seed is None,
        state.server_identity is None,
        state.machine_id is None,
        state.session_token is None,
{
}

/// Loading gives exactly the state that was parsed, one that holds nothing where there is no
/// file, and else the cause of what went wrong.
pub proof fn law_loaded_state(outcome: LoadOutcome, state: Result<AgentState, String>)
    requires
        call_ensures(AgentState::load, (outcome,), state),
    ensures
        match outcome {
            LoadOutcome::Parsed(parsed) => state == Ok::<AgentState, String>(parsed),
            LoadOutcome::Missing => state is Ok && state->Ok_0.machine_key_seed is None
                && state->Ok_0.server_identity is None && state->Ok_0.machine_id is None
                && state->Ok_0.session_token is None,
            LoadOutcome::Malformed(cause) => state == Err::<AgentState, String>(cause),
            LoadOutcome::Unreadable(cause) => state == Err::<AgentState, String>(cause),
        },
{
}

/// Saving creates the directory first, where the path names one, and then writes this very
/// state to the path, and does nothing else.
pub proof fn law_saved_state(
    state: AgentState,
    path: String,
    parent: Option<String>,
    steps: Vec<SaveStep>,
)
    requires
        call_ensures(AgentState::save, (&state, path, parent), steps),
    ensures
        ({
            let named = parent is Some && parent->Some_0@.len() > 0;
            &&& named ==> {
                &&& steps@.len() == 2
                &&& steps@[0] matches SaveStep::CreateDirs(dir) && dir@ == parent->Some_0@
            }
            &&& !named ==> steps@.len() == 1
            &&& steps@.last() matches SaveStep::Write { path: target, state: written } && {
                &&& target@ == path@
                &&& written.machine_key_seed is Some <==> state.machine_key_seed is Some
                &&& written.server_identity is Some <==> state.server_identity is Some
                &&& written.machine_id is Some <==> state.machine_id is Some
                &&& written.session_token is Some <==> state.session_token is Some
                &&& state.machine_key_seed is Some ==> written.machine_key_seed->Some_0@
                    == state.machine_key_seed->Some_0@
                &&& state.server_identity is Some ==> written.server_identity->Some_0@
                    == state.server_identity->Some_0@
                &&& state.machine_id is Some ==> written.machine_id->Some_0@
                    == state.machine_id->Some_0@
                &&& state.session_token is Some ==> written.session_token->Some_0@
                    == state.session_token->Some_0@
            }
        }),
{
    crate::views::law_state_contents(state);
    if let SaveStep::Write { path: target, state: written } = steps@.last() {
        crate::views::law_state_contents(written);
    }
}

/// Bytes become an array exactly where there are 32 of them, and it holds them in order.
pub proof fn law_array_of_32(bytes: &[u8], array: Option<[u8; 32]>)
    requires
        call_ensures(crate::key::to_array32, (bytes,), array),
    ensures
        array is Some <==> bytes@.len() == 32,
        array is Some ==> array->Some_0@ == bytes@,
{
    if array is Some {
        assert(array->Some_0@.len() == 32);
    }
}

/// A key's public key and its signatures are those of its seed.
pub proof fn law_key_results(key: MachineKey, message: &[u8], public: [u8; 32], signature: [u8; 64])
    requires
        call_ensures(MachineKey::public, (&key,), public),
        call_ensures(MachineKey::sign, (&key, message), signature),
    ensures
        public@ == crate::key::ed25519_public_key(key.seed@),
        signature@ == crate::key::ed25519_signature(key.seed@, message@),
{
}

/// The signed bytes, by index: the thirty bytes of the first line with its line feed, the
/// public key from there on, a line feed, the platform, a line feed, and the label to the end.
pub proof fn law_signed_bytes(public: &[u8], platform: &str, label: &str, bytes: Vec<u8>)
    requires
        call_ensures(
            crate::registration::canonical_machine_bytes,
            (public, platform, label),
            bytes,
        ),
    ensures
        ({
            let p = vstd::utf8::encode_utf8(platform@);
            let l = vstd::utf8::encode_utf8(label@);
            &&& bytes@.len() == 32int + public@.len() + p.len() + l.len()
            &&& bytes@.subrange(0, 30) == seq![
                115u8, 121u8, 108u8, 118u8, 97u8, 45u8, 109u8, 97u8, 99u8, 104u8, 105u8, 110u8, 101u8, 45u8,
                114u8, 101u8, 103u8, 105u8, 115u8, 116u8, 114u8, 97u8, 116u8, 105u8, 111u8, 110u8, 58u8, 118u8,
                49u8, 10u8,
            ]
            &&& bytes@.subrange(30, 30int + public@.len()) == public@
            &&& bytes@[30int + public@.len()] == 10u8
            &&& bytes@.subrange(31int + public@.len(), 31int + public@.len() + p.len()) == p
            &&& bytes@[31int + public@.len() + p.len()] == 10u8
            &&& bytes@.subrange(32int + public@.len() + p.len(), bytes@.len() as int) == l
        }),
{
}

/// A registration carries the key's public key, the platform and the label as they are, and
/// the key's signature over the bytes to be signed for those three.
pub proof fn law_registration_result(
    key: MachineKey,
    platform: &str,
    label: &str,
    request: RegisterMachineRequest,
    public: [u8; 32],
    signed: &[u8],
    bytes: Vec<u8>,
)
    requires
        call_ensures(MachineKey::public, (&key,), public),
        signed@ == public@,
        call_ensures(
            crate::registration::canonical_machine_bytes,
            (signed, platform, label),
            bytes,
        ),
        call_ensures(
            crate::registration::registration_request,
            (&key, platform, label),
            request,
        ),
    ensures
        request.machine_identity_public@ == public@,
        request.platform@ == platform@,
        request.label@ == label@,
        request.signature@ == crate::key::ed25519_signature(key.seed@, bytes@),
{
}

/// A registration that is put together keeps each of its parts.
pub proof fn law_assembled_registration(
    public: [u8; 32],
    platform: &str,
    label: &str,
    signature: [u8; 64],
    request: RegisterMachineRequest,
)
    requires
        call_ensures(
            crate::registration::assemble_registration,
            (&public, platform, label, &signature),
            request,
        ),
    ensures
        request.machine_identity_public@ == public@,
        request.platform@ == platform@,
        request.label@ == label@,
        request.signature@ == signature@,
{
}

/// The label is the computer name wherever there is one, else the host name wherever there is
/// one, and else `sylva-agent`.
pub proof fn law_label(computer_name: Option<String>, host_name: Option<String>, label: String)
    requires
        call_ensures(crate::registration::machine_label, (computer_name, host_name), label),
    ensures
        computer_name is Some ==> label@ == computer_name->Some_0@,
        computer_name is None && host_name is Some ==> label@ == host_name->Some_0@,
        computer_name is None && host_name is None ==> label@ == "sylva-agent"@,
{
}

/// A request keeps its message, and carries the token as the one `authorization` value, behind
/// the seven bytes of `Bearer `, where each of the token's bytes may stand in such a value;
/// otherwise it carries nothing.
pub proof fn law_authed_request<T>(token: &str, message: T, request: AuthedRequest<T>)
    requires
        call_ensures(crate::authed::authed::<T>, (token, message), request),
    ensures
        request.message == message,
        ({
            let own = vstd::utf8::encode_utf8(token@);
            let entries = crate::authed::metadata_entries(request.metadata);
            let travels = forall|i: int|
                0 <= i < own.len() ==> (#[trigger] own[i] == 9 || (own[i] >= 32 && own[i] != 127));
            &&& travels ==> {
                &&& entries.dom() == set!["authorization"@]
                &&& entries["authorization"@].len() == 1
                &&& entries["authorization"@][0] == seq![66u8, 101u8, 97u8, 114u8, 101u8, 114u8, 32u8]
                    + own
            }
            &&& !travels ==> entries.dom() == Set::<Seq<char>>::empty()
        }),
{
    crate::authed::law_bearer_value(token@);
}

/// The first check-in of a new schedule is due at once.
pub proof fn law_new_schedule(schedule: Schedule)
    requires
        call_ensures(Schedule::new, (), schedule),
    ensures
        schedule.due_secs == 0,
{
}

/// The push stream's reader opens the stream with the request that carries its token, hands
/// on every payload as it came, and ends with the error of what failed, or without one where
/// the server closed the stream.
pub proof fn law_subscription_results(
    token: &str,
    event: SubscribeEvent,
    action: SubscribeAction,
    request: AuthedRequest<Empty>,
)
    requires
        call_ensures(crate::session::subscribe_loop, (token, event), action),
        call_ensures(crate::authed::authed::<Empty>, (token, Empty {  }), request),
    ensures
        match event {
            SubscribeEvent::Started => action matches SubscribeAction::Open(open)
                && crate::authed::metadata_entries(open.metadata)
                == crate::authed::metadata_entries(request.metadata),
            SubscribeEvent::Opened => action matches SubscribeAction::AwaitPush(payload)
                && payload is None,
            SubscribeEvent::OpenFailed(cause) => action matches SubscribeAction::Stop(
                Err(AgentError::Subscribe { cause: why }),
            ) && why@ == cause@,
            SubscribeEvent::Pushed(pushed) => action matches SubscribeAction::AwaitPush(payload)
                && payload == pushed,
            SubscribeEvent::StreamFailed(cause) => action matches SubscribeAction::Stop(
                Err(AgentError::PushStream { cause: why }),
            ) && why@ == cause@,
            SubscribeEvent::Closed => action matches SubscribeAction::Stop(Ok(_)),
        },
{
}

/// A started agent has the settings it was given and a state that holds nothing, and wants the
/// state file of its configuration read.
pub proof fn law_started_agent(
    config: Config,
    platform: String,
    label: String,
    started: (Agent, Action),
)
    requires
        call_ensures(Agent::start, (config, platform, label), started),
    ensures
        started.0.config == config,
        started.0.platform == platform,
        started.0.label == label,
        started.0.state.machine_key_seed is None,
        started.0.state.server_identity is None,
        started.0.state.machine_id is None,
        started.0.state.session_token is None,
        started.0.phase is Loading,
        started.1 matches Action::Load { path } && path@ == config.state_path@,
{
    crate::views::law_state_contents(started.0.state);
}

/// The pinned identity is what the state holds where that has 32 bytes, none where it holds
/// none, and an error otherwise.
pub proof fn law_pin_result(agent: Agent, pinned: Result<Option<[u8; 32]>, AgentError>)
    requires
        call_ensures(Agent::pinned_identity, (&agent,), pinned),
    ensures
        match agent.state.server_identity {
            None => pinned is Ok && pinned->Ok_0 is None,
            Some(identity) => if identity@.len() == 32 {
                pinned is Ok && pinned->Ok_0 is Some && pinned->Ok_0->Some_0@ == identity@
            } else {
                pinned == Err::<Option<[u8; 32]>, AgentError>(AgentError::BadServerIdentity)
            },
        },
{
    crate::views::law_state_contents(agent.state);
}

/// A new key is needed exactly where the agent waits for its state and learns of one without a
/// key, or of none.
pub proof fn law_needs_key_result(agent: Agent, event: Event, needed: bool)
    requires
        call_ensures(Agent::needs_key, (&agent, &event), needed),
    ensures
        needed <==> agent.phase is Loading && match event {
            Event::Loaded(LoadOutcome::Parsed(state)) => state.machine_key_seed is None,
            Event::Loaded(LoadOutcome::Missing) => true,
            _ => false,
        },
{
}

} // verus!
