//! The agent's answers, event by event: what each one changes, what it leaves alone, and what
//! each action carries.

use vstd::prelude::*;
use crate::agent::{ActionView, AgentView, EventView, PhaseView, TrustDecision};
use crate::config::ConfigView;
use crate::error::ErrorView;
use crate::state::{LoadView, StateView};

verus! {

/// A cold agent has its settings as they were given, an empty state, and waits for the state
/// file.
pub proof fn law_cold_agent(config: ConfigView, platform: Seq<char>, label: Seq<char>)
    ensures
        ({
            let agent = AgentView::cold(config, platform, label);
            &&& agent.config == config
            &&& agent.platform == platform
            &&& agent.label == label
            &&& agent.state.machine_key_seed is None
            &&& agent.state.server_identity is None
            &&& agent.state.machine_id is None
            &&& agent.state.session_token is None
            &&& agent.phase is Loading
        }),
{
}

/// In each phase the agent answers exactly the events it waits for: what became of the state
/// file, of a save, of a connection, of a registration, or the end of the run.
pub proof fn law_awaited_events(agent: AgentView, event: EventView, drawn: Option<Seq<u8>>)
    ensures
        agent.next(event, drawn) is Some <==> match agent.phase {
            PhaseView::Loading => event is Loaded,
            PhaseView::SavingKey(_) => event is Saved,
            PhaseView::Connecting(_) => event is Connected || event is ConnectFailed,
            PhaseView::SavingPin(_) => event is Saved,
            PhaseView::Registering(_) => event is Registered || event is RegisterFailed,
            PhaseView::SavingSession(_) => event is Saved,
            PhaseView::Running(_) => event is LoopEnded || event is Interrupted,
            PhaseView::Stopped => false,
        },
{
}

/// No event changes the agent's configuration, its platform or its label.
pub proof fn law_settings_never_change(agent: AgentView, event: EventView, drawn: Option<Seq<u8>>)
    requires
        agent.next(event, drawn) is Some,
    ensures
        agent.next(event, drawn)->Some_0.0.config == agent.config,
        agent.next(event, drawn)->Some_0.0.platform == agent.platform,
        agent.next(event, drawn)->Some_0.0.label == agent.label,
{
}

/// Whatever event brings a connection about, it goes to the host and the discovery port of the
/// agent's own configuration, and is held against exactly the server identity that the state
/// pins: none where none is pinned, and never one that is not 32 bytes long.
pub proof fn law_connections_follow_the_configuration(
    agent: AgentView,
    event: EventView,
    drawn: Option<Seq<u8>>,
)
    requires
        agent.next(event, drawn) is Some,
    ensures
        ({
            let (after, action) = agent.next(event, drawn)->Some_0;
            action matches ActionView::Connect { host, discovery_port, pinned } ==> {
                &&& host == agent.config.host
                &&& discovery_port == agent.config.discovery_port
                &&& pinned == after.state.server_identity
                &&& pinned is Some ==> pinned->Some_0.len() == 32
                &&& after.phase is Connecting
            }
        }),
{
}

/// Whatever event brings a save about, it writes the agent's whole state as it is from then
/// on, to the path of the agent's own configuration, and the agent waits for it to be done.
pub proof fn law_saves_write_the_state(agent: AgentView, event: EventView, drawn: Option<Seq<u8>>)
    requires
        agent.next(event, drawn) is Some,
    ensures
        ({
            let (after, action) = agent.next(event, drawn)->Some_0;
            action matches ActionView::Save { path, state } ==> {
                &&& path == agent.config.state_path
                &&& state == after.state
                &&& after.phase is SavingKey || after.phase is SavingPin
                    || after.phase is SavingSession
            }
        }),
{
}

/// The state changes only where a state is loaded, where a server is met for the first time
/// and where the machine is registered; upon every other event it stays as it is.
pub proof fn law_state_changes_only_by_news(
    agent: AgentView,
    event: EventView,
    drawn: Option<Seq<u8>>,
)
    requires
        agent.next(event, drawn) is Some,
        !(event is Loaded),
        !(event is Registered),
        !(event matches EventView::Connected { identity, decision } && decision
            == TrustDecision::FirstContact),
    ensures
        agent.next(event, drawn)->Some_0.0.state == agent.state,
{
}

/// A new key is needed exactly where a state without one is loaded, or none is there to load.
pub proof fn law_new_key_is_needed(agent: AgentView, event: EventView)
    ensures
        agent.needs_key(event) <==> agent.phase is Loading && (event matches EventView::Loaded(
            outcome,
        ) && match outcome {
            LoadView::Parsed(state) => state.machine_key_seed is None,
            LoadView::Missing => true,
            LoadView::Malformed(_) => false,
            LoadView::Unreadable(_) => false,
        }),
{
}

/// After a state was loaded, or found missing and taken as an empty one: a key in it is used
/// as it is if it has 32 bytes, and the agent connects under the state's pin; a key or a pin of
/// another length ends the program. Where the state holds no key, the drawn one is added to it
/// and persisted before anything else; where none could be drawn, the program ends.
pub proof fn law_start_from_a_state(
    agent: AgentView,
    outcome: LoadView,
    state: StateView,
    drawn: Option<Seq<u8>>,
)
    requires
        agent.phase is Loading,
        outcome == LoadView::Parsed(state) || (outcome is Missing && state.machine_key_seed is None
            && state.server_identity is None && state.machine_id is None
            && state.session_token is None),
    ensures
        agent.next(EventView::Loaded(outcome), drawn) is Some,
        ({
            let (after, action) = agent.next(EventView::Loaded(outcome), drawn)->Some_0;
            &&& after.state.server_identity == state.server_identity
            &&& after.state.machine_id == state.machine_id
            &&& after.state.session_token == state.session_token
            &&& state.machine_key_seed matches Some(seed) ==> {
                &&& after.state.machine_key_seed == Some(seed)
                &&& seed.len() != 32 ==> after.phase is Stopped && action == ActionView::Exit(
                    Err(ErrorView::BadKeySeed),
                )
                &&& seed.len() == 32 ==> if state.server_identity is Some
                    && state.server_identity->Some_0.len() != 32 {
                    after.phase is Stopped && action == ActionView::Exit(
                        Err(ErrorView::BadServerIdentity),
                    )
                } else {
                    after.phase == PhaseView::Connecting(seed) && action == (ActionView::Connect {
                        host: agent.config.host,
                        discovery_port: agent.config.discovery_port,
                        pinned: state.server_identity,
                    })
                }
            }
            &&& state.machine_key_seed is None ==> {
                &&& after.state.machine_key_seed == drawn
                &&& drawn is None ==> after.phase is Stopped && action == ActionView::Exit(
                    Err(ErrorView::NoRandomness),
                )
                &&& drawn matches Some(seed) ==> after.phase == PhaseView::SavingKey(seed)
                    && action == (ActionView::Save {
                    path: agent.config.state_path,
                    state: StateView {
                        machine_key_seed: Some(seed),
                        server_identity: state.server_identity,
                        machine_id: state.machine_id,
                        session_token: state.session_token,
                    },
                })
            }
        }),
{
}

/// A state file that is no state, or that cannot be read, ends the program with the file's
/// path and the cause, whatever was drawn, and leaves the state as it was.
pub proof fn law_no_start_without_a_state(
    agent: AgentView,
    cause: Seq<char>,
    drawn: Option<Seq<u8>>,
)
    requires
        agent.phase is Loading,
    ensures
        ({
            let stopped = AgentView {
                config: agent.config,
                platform: agent.platform,
                label: agent.label,
                state: agent.state,
                phase: PhaseView::Stopped,
            };
            let action = ActionView::Exit(
                Err(ErrorView::LoadState { path: agent.config.state_path, cause }),
            );
            &&& agent.next(EventView::Loaded(LoadView::Malformed(cause)), drawn) == Some(
                (stopped, action),
            )
            &&& agent.next(EventView::Loaded(LoadView::Unreadable(cause)), drawn) == Some(
                (stopped, action),
            )
        }),
{
}

/// A save that fails ends the program with its cause, wherever the agent stood.
pub proof fn law_failed_save_ends(agent: AgentView, cause: Seq<char>, drawn: Option<Seq<u8>>)
    requires
        agent.phase is SavingKey || agent.phase is SavingPin || agent.phase is SavingSession,
    ensures
        ({
            let next = agent.next(EventView::Saved(Err(cause)), drawn);
            &&& next is Some
            &&& next->Some_0.0.phase is Stopped
            &&& next->Some_0.0.state == agent.state
            &&& next->Some_0.1 == ActionView::Exit(Err(ErrorView::SaveState { cause }))
        }),
{
}

/// A good save of the key is followed by the connection under that same key, of the pin by the
/// registration with that same key, and of the session by the run under that same token.
pub proof fn law_good_save_goes_on(agent: AgentView, event: EventView, drawn: Option<Seq<u8>>)
    requires
        event matches EventView::Saved(Ok(_)),
    ensures
        ({
            let next = agent.next(event, drawn);
            let (after, action) = next->Some_0;
            &&& agent.phase matches PhaseView::SavingKey(key) ==> {
                &&& next is Some
                &&& after.state == agent.state
                &&& if agent.state.server_identity is Some
                    && agent.state.server_identity->Some_0.len() != 32 {
                    after.phase is Stopped && action == ActionView::Exit(
                        Err(ErrorView::BadServerIdentity),
                    )
                } else {
                    after.phase == PhaseView::Connecting(key) && action == (ActionView::Connect {
                        host: agent.config.host,
                        discovery_port: agent.config.discovery_port,
                        pinned: agent.state.server_identity,
                    })
                }
            }
            &&& agent.phase matches PhaseView::SavingPin(key) ==> {
                &&& next is Some
                &&& after.state == agent.state
                &&& after.phase == PhaseView::Registering(key)
                &&& action is Register
            }
            &&& agent.phase matches PhaseView::SavingSession(token) ==> {
                &&& next is Some
                &&& after.state == agent.state
                &&& after.phase == PhaseView::Running(token)
                &&& action == (ActionView::Run { token })
            }
        }),
{
}

/// A server met for the first time is pinned by the identity it proved, whatever the state
/// held as a pin, and nothing else of the state changes; the pin is persisted before the
/// machine registers. A server that proved the pin changes nothing, and the machine registers.
/// Either way the key stays the one it connected with.
pub proof fn law_connected(
    agent: AgentView,
    key: Seq<u8>,
    identity: Seq<u8>,
    drawn: Option<Seq<u8>>,
)
    requires
        agent.phase == PhaseView::Connecting(key),
    ensures
        ({
            let first = agent.next(
                EventView::Connected { identity, decision: TrustDecision::FirstContact },
                drawn,
            );
            let again = agent.next(
                EventView::Connected { identity, decision: TrustDecision::Pinned },
                drawn,
            );
            &&& first is Some
            &&& first->Some_0.0.state.server_identity == Some(identity)
            &&& first->Some_0.0.state.machine_key_seed == agent.state.machine_key_seed
            &&& first->Some_0.0.state.machine_id == agent.state.machine_id
            &&& first->Some_0.0.state.session_token == agent.state.session_token
            &&& first->Some_0.0.phase == PhaseView::SavingPin(key)
            &&& first->Some_0.1 == (ActionView::Save {
                path: agent.config.state_path,
                state: first->Some_0.0.state,
            })
            &&& again is Some
            &&& again->Some_0.0.state == agent.state
            &&& again->Some_0.0.phase == PhaseView::Registering(key)
            &&& again->Some_0.1 is Register
        }),
{
}

/// A connection or a registration that fails ends the program with what went wrong, and leaves
/// the state as it was.
pub proof fn law_failure_at_the_server_ends(
    agent: AgentView,
    event: EventView,
    drawn: Option<Seq<u8>>,
)
    ensures
        agent.phase is Connecting ==> (event matches EventView::ConnectFailed(failure) ==> {
            let next = agent.next(event, drawn);
            &&& next is Some
            &&& next->Some_0.0.phase is Stopped
            &&& next->Some_0.0.state == agent.state
            &&& next->Some_0.1 == ActionView::Exit(Err(ErrorView::Connect(failure)))
        }),
        agent.phase is Registering ==> (event matches EventView::RegisterFailed(cause) ==> {
            let next = agent.next(event, drawn);
            &&& next is Some
            &&& next->Some_0.0.phase is Stopped
            &&& next->Some_0.0.state == agent.state
            &&& next->Some_0.1 == ActionView::Exit(Err(ErrorView::Register { cause }))
        }),
{
}

/// The request of every registration that any event brings about: the public key of the key
/// that the agent now registers with, the agent's own platform and label, and that key's
/// signature over the bytes that a server lays out from those three.
pub proof fn law_registrations_are_signed(
    agent: AgentView,
    event: EventView,
    drawn: Option<Seq<u8>>,
    message: Seq<u8>,
)
    requires
        agent.next(event, drawn) is Some,
        agent.next(event, drawn)->Some_0.1 is Register,
        ({
            let key = agent.next(event, drawn)->Some_0.0.phase->Registering_0;
            let public = crate::key::ed25519_public_key(key);
            let platform = vstd::utf8::encode_utf8(agent.platform);
            let label = vstd::utf8::encode_utf8(agent.label);
            &&& message.len() == 32int + public.len() + platform.len() + label.len()
            &&& message.subrange(0, 30) == seq![
                115u8, 121u8, 108u8, 118u8, 97u8, 45u8, 109u8, 97u8, 99u8, 104u8, 105u8, 110u8, 101u8, 45u8,
                114u8, 101u8, 103u8, 105u8, 115u8, 116u8, 114u8, 97u8, 116u8, 105u8, 111u8, 110u8, 58u8, 118u8,
                49u8, 10u8,
            ]
            &&& message.subrange(30, 30int + public.len()) == public
            &&& message[30int + public.len()] == 10u8
            &&& message.subrange(31int + public.len(), 31int + public.len() + platform.len())
                == platform
            &&& message[31int + public.len() + platform.len()] == 10u8
            &&& message.subrange(32int + public.len() + platform.len(), message.len() as int)
                == label
        }),
    ensures
        ({
            let (after, action) = agent.next(event, drawn)->Some_0;
            let request = action->Register_0;
            &&& after.phase matches PhaseView::Registering(key) && {
                &&& agent.phase == PhaseView::Connecting(key) || agent.phase
                    == PhaseView::SavingPin(key)
                &&& request.machine_identity_public == crate::key::ed25519_public_key(key)
                &&& request.platform == agent.platform
                &&& request.label == agent.label
                &&& request.signature == crate::key::ed25519_signature(key, message)
            }
        }),
{
    let key = agent.next(event, drawn)->Some_0.0.phase->Registering_0;
    crate::registration::law_signature_covers_the_request(
        key,
        agent.platform,
        agent.label,
        message,
    );
}

/// Whatever the state held before, a registration replaces the machine id and the session
/// token by the server's and keeps the key and the pin; that state is persisted while the
/// agent waits with the new token; and once it is, the run goes on under exactly the token
/// that the server gave.
pub proof fn law_registered_session_is_used(
    agent: AgentView,
    machine_id: Seq<char>,
    token: Seq<char>,
    saved: EventView,
    drawn: Option<Seq<u8>>,
    drawn_later: Option<Seq<u8>>,
)
    requires
        agent.phase is Registering,
        saved matches EventView::Saved(Ok(_)),
    ensures
        ({
            let registered = agent.next(EventView::Registered { machine_id, token }, drawn);
            let waiting = registered->Some_0.0;
            let started = waiting.next(saved, drawn_later);
            &&& registered is Some
            &&& waiting.state.machine_id == Some(machine_id)
            &&& waiting.state.session_token == Some(token)
            &&& waiting.state.machine_key_seed == agent.state.machine_key_seed
            &&& waiting.state.server_identity == agent.state.server_identity
            &&& waiting.phase == PhaseView::SavingSession(token)
            &&& registered->Some_0.1 == (ActionView::Save {
                path: agent.config.state_path,
                state: StateView {
                    machine_key_seed: agent.state.machine_key_seed,
                    server_identity: agent.state.server_identity,
                    machine_id: Some(machine_id),
                    session_token: Some(token),
                },
            })
            &&& started is Some
            &&& started->Some_0.0.state == waiting.state
            &&& started->Some_0.0.phase == PhaseView::Running(token)
            &&& started->Some_0.1 == (ActionView::Run { token })
        }),
{
}

/// The run ends with what its loop ended with, and without an error where the operator asked
/// for it; the state stays as it is.
pub proof fn law_run_ends(
    agent: AgentView,
    result: Result<(), ErrorView>,
    drawn: Option<Seq<u8>>,
)
    requires
        agent.phase is Running,
    ensures
        ({
            let ended = agent.next(EventView::LoopEnded(result), drawn);
            let interrupted = agent.next(EventView::Interrupted, drawn);
            &&& ended is Some
            &&& ended->Some_0.0.phase is Stopped
            &&& ended->Some_0.0.state == agent.state
            &&& ended->Some_0.1 == ActionView::Exit(result)
            &&& interrupted is Some
            &&& interrupted->Some_0.0.phase is Stopped
            &&& interrupted->Some_0.0.state == agent.state
            &&& interrupted->Some_0.1 matches ActionView::Exit(Ok(_))
        }),
{
}

} // verus!
