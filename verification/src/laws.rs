//! What holds over whole runs of the agent, whatever it learns and in whatever order.

use vstd::prelude::*;
use crate::agent::{ActionView, AgentView, EventView, PhaseView, TrustDecision};
use crate::config::ConfigView;
use crate::error::{ConnectFailureView, ErrorView};
use crate::state::{LoadView, StateView};

verus! {

/// One thing that happens to an agent: the event it learns, and the seed that could be drawn
/// for a new machine key at that moment, if any.
pub struct Input {
    pub event: EventView,
    pub drawn: Option<Seq<u8>>,
}

/// The agent after one input.
pub open spec fn advance(agent: AgentView, input: Input) -> AgentView {
    match agent.next(input.event, input.drawn) {
        Some((after, _)) => after,
        None => agent,
    }
}

/// The agent after a sequence of inputs.
pub open spec fn run(agent: AgentView, inputs: Seq<Input>) -> AgentView
    decreases inputs.len(),
{
    if inputs.len() == 0 {
        agent
    } else {
        advance(run(agent, inputs.drop_last()), inputs.last())
    }
}

/// What the state file holds after an event, if that is known: what was read from it, then
/// whatever was last persisted. A save that failed may have left anything behind.
pub open spec fn disk_next(disk: Option<StateView>, agent: AgentView, event: EventView) -> Option<
    StateView,
> {
    match (agent.phase, event) {
        (PhaseView::Loading, EventView::Loaded(LoadView::Parsed(state))) => Some(state),
        (PhaseView::SavingKey(_), EventView::Saved(Ok(_))) => Some(agent.state),
        (PhaseView::SavingPin(_), EventView::Saved(Ok(_))) => Some(agent.state),
        (PhaseView::SavingSession(_), EventView::Saved(Ok(_))) => Some(agent.state),
        (PhaseView::SavingKey(_), EventView::Saved(Err(_))) => None,
        (PhaseView::SavingPin(_), EventView::Saved(Err(_))) => None,
        (PhaseView::SavingSession(_), EventView::Saved(Err(_))) => None,
        _ => disk,
    }
}

/// What the state file holds after a sequence of inputs, if that is known.
pub open spec fn disk(agent: AgentView, inputs: Seq<Input>) -> Option<StateView>
    decreases inputs.len(),
{
    if inputs.len() == 0 {
        None
    } else {
        let earlier = inputs.drop_last();
        disk_next(disk(agent, earlier), run(agent, earlier), inputs.last().event)
    }
}

/// Whether every new key and every server identity among the inputs is 32 bytes long.
pub open spec fn well_sized(inputs: Seq<Input>) -> bool {
    forall|i: int|
        0 <= i < inputs.len() ==> {
            &&& crate::key::drawn_sized((#[trigger] inputs[i]).drawn)
            &&& inputs[i].event matches EventView::Connected { identity, .. } ==> identity.len()
                == 32
        }
}

/// Whether a verified connection is judged by what is pinned: first contact exactly where
/// nothing is, and otherwise the pinned identity proved.
pub open spec fn judged(agent: AgentView, event: EventView) -> bool {
    event matches EventView::Connected { identity, decision } ==> match decision {
        TrustDecision::FirstContact => agent.state.server_identity is None,
        TrustDecision::Pinned => agent.state.server_identity == Some(identity),
    }
}

/// Whether every connection of a run is judged by what is pinned at that moment.
pub open spec fn judged_run(agent: AgentView, inputs: Seq<Input>) -> bool
    decreases inputs.len(),
{
    inputs.len() > 0 ==> {
        &&& judged_run(agent, inputs.drop_last())
        &&& judged(run(agent, inputs.drop_last()), inputs.last().event)
    }
}

/// Once the state is loaded, the machine key never changes again, whatever happens.
pub proof fn law_machine_key_never_changes(agent: AgentView, inputs: Seq<Input>)
    requires
        !(agent.phase is Loading),
    ensures
        run(agent, inputs).state.machine_key_seed == agent.state.machine_key_seed,
        !(run(agent, inputs).phase is Loading),
    decreases inputs.len(),
{
    if inputs.len() > 0 {
        law_machine_key_never_changes(agent, inputs.drop_last());
    }
}

/// A machine key that was persisted is the one that is used: no new one is made, and the
/// state stays as it was read.
pub proof fn law_persisted_key_is_reused(
    agent: AgentView,
    state: StateView,
    seed: Seq<u8>,
    drawn: Option<Seq<u8>>,
)
    requires
        agent.phase is Loading,
        state.machine_key_seed == Some(seed),
        seed.len() == 32,
    ensures
        ({
            let after = advance(agent, Input { event: EventView::Loaded(LoadView::Parsed(state)), drawn });
            &&& after.state == state
            &&& match state.server_identity {
                Some(identity) if identity.len() != 32 => after.phase is Stopped,
                _ => after.phase == PhaseView::Connecting(seed),
            }
        }),
{
}

/// What was drawn for a new machine key changes nothing where no new one is needed.
pub proof fn law_draw_matters_only_without_a_key(
    agent: AgentView,
    event: EventView,
    drawn1: Option<Seq<u8>>,
    drawn2: Option<Seq<u8>>,
)
    requires
        !agent.needs_key(event),
    ensures
        agent.next(event, drawn1) == agent.next(event, drawn2),
{
}

/// The machine key is made once, then persisted and reused: once a state's key is settled,
/// settling it again in what a save of that state writes gives the same key, not a new one,
/// and leaves that state as it is, so that there is nothing to write.
pub proof fn law_key_is_made_once(
    state: StateView,
    drawn: Option<Seq<u8>>,
    path: Seq<char>,
    parent: Option<Seq<char>>,
    again: Option<Seq<u8>>,
)
    requires
        crate::key::drawn_sized(drawn),
        crate::key::key_settled(state, drawn).1 is Ok,
    ensures
        ({
            let (settled, choice) = crate::key::key_settled(state, drawn);
            let written = crate::state::save_steps(settled, path, parent).last()->state;
            let reloaded = crate::state::loaded(LoadView::Parsed(written));
            &&& reloaded is Ok
            &&& crate::key::key_settled(reloaded->Ok_0, again).0 == settled
            &&& crate::key::key_settled(reloaded->Ok_0, again).1 is Ok
            &&& crate::key::key_settled(reloaded->Ok_0, again).1->Ok_0 == (choice->Ok_0.0, false)
        }),
{
}

/// The server identity that is pinned never changes: once one is there, every run in which
/// connections are judged by it leaves it as it is.
pub proof fn law_pin_never_changes(agent: AgentView, inputs: Seq<Input>)
    requires
        !(agent.phase is Loading),
        agent.state.server_identity is Some,
        judged_run(agent, inputs),
    ensures
        run(agent, inputs).state.server_identity == agent.state.server_identity,
    decreases inputs.len(),
{
    if inputs.len() > 0 {
        law_pin_never_changes(agent, inputs.drop_last());
        law_machine_key_never_changes(agent, inputs.drop_last());
    }
}

/// Trust on first use: after a verified connection the pinned identity is the one that the
/// server proved. On first contact it is persisted before the agent goes on; a server
/// that proved the pinned identity is registered with at once.
pub proof fn law_first_contact_pins(
    agent: AgentView,
    key: Seq<u8>,
    identity: Seq<u8>,
    decision: TrustDecision,
    drawn: Option<Seq<u8>>,
)
    requires
        agent.phase == PhaseView::Connecting(key),
        judged(agent, EventView::Connected { identity, decision }),
    ensures
        ({
            let event = EventView::Connected { identity, decision };
            let (after, action) = agent.next(event, drawn)->Some_0;
            &&& after.state == agent.state.with_pin(identity)
            &&& decision is FirstContact ==> action == (ActionView::Save {
                path: agent.config.state_path,
                state: after.state,
            })
            &&& decision is Pinned ==> action is Register && after.state == agent.state
        }),
{
}

/// A server whose identity does not match the pinned key is refused: the agent stops with
/// that error, its state untouched, and does nothing more, whatever happens next.
pub proof fn law_mismatch_is_refused(
    agent: AgentView,
    key: Seq<u8>,
    drawn: Option<Seq<u8>>,
    later: Seq<Input>,
)
    requires
        agent.phase == PhaseView::Connecting(key),
    ensures
        ({
            let mismatch = ConnectFailureView::IdentityMismatch;
            let (after, action) = agent.next(EventView::ConnectFailed(mismatch), drawn)->Some_0;
            &&& action == ActionView::Exit(Err(ErrorView::Connect(mismatch)))
            &&& after.state == agent.state
            &&& after.phase is Stopped
            &&& run(after, later) == after
        }),
{
    let after = AgentView { phase: PhaseView::Stopped, ..agent };
    law_stopped_for_good(after, later);
}

/// An agent that has stopped stays as it is.
pub proof fn law_stopped_for_good(agent: AgentView, inputs: Seq<Input>)
    requires
        agent.phase is Stopped,
    ensures
        run(agent, inputs) == agent,
    decreases inputs.len(),
{
    if inputs.len() > 0 {
        law_stopped_for_good(agent, inputs.drop_last());
    }
}

/// The machine registers only over a verified connection: right after a connection to the
/// pinned server, or after the identity of a first server has been persisted. It then sends
/// the registration of the key that it settled on.
pub proof fn law_registers_only_with_a_verified_server(
    agent: AgentView,
    event: EventView,
    drawn: Option<Seq<u8>>,
)
    requires
        agent.next(event, drawn) is Some,
        agent.next(event, drawn)->Some_0.1 is Register,
    ensures
        match agent.phase {
            PhaseView::Connecting(key) => {
                &&& event matches EventView::Connected { decision, .. } && decision is Pinned
                &&& agent.next(event, drawn)->Some_0.1 == ActionView::Register(
                    crate::registration::registration(key, agent.platform, agent.label),
                )
            },
            PhaseView::SavingPin(key) => {
                &&& event matches EventView::Saved(Ok(_))
                &&& agent.next(event, drawn)->Some_0.1 == ActionView::Register(
                    crate::registration::registration(key, agent.platform, agent.label),
                )
            },
            _ => false,
        },
{
}

/// A machine that registers, or has registered, has a server pinned: no run in which
/// connections are judged by what is pinned gets there without one.
pub proof fn law_registered_machine_has_a_pin(
    config: ConfigView,
    platform: Seq<char>,
    label: Seq<char>,
    inputs: Seq<Input>,
)
    requires
        judged_run(AgentView::cold(config, platform, label), inputs),
    ensures
        ({
            let agent = run(AgentView::cold(config, platform, label), inputs);
            agent.phase is SavingPin || agent.phase is Registering || agent.phase is SavingSession
                || agent.phase is Running ==> agent.state.server_identity is Some
        }),
    decreases inputs.len(),
{
    if inputs.len() > 0 {
        law_registered_machine_has_a_pin(config, platform, label, inputs.drop_last());
    }
}

/// Whatever the agent changes in its state, it has persisted at once: no other action comes
/// between a change and its save.
pub proof fn law_every_change_is_saved(agent: AgentView, event: EventView, drawn: Option<Seq<u8>>)
    requires
        agent.next(event, drawn) is Some,
        !(event is Loaded),
    ensures
        ({
            let (after, action) = agent.next(event, drawn)->Some_0;
            after.state != agent.state ==> action == (ActionView::Save {
                path: agent.config.state_path,
                state: after.state,
            })
        }),
{
}

/// Whether the pinned identity, if there is one, is 32 bytes long.
pub open spec fn pin_sized(state: StateView) -> bool {
    state.server_identity matches Some(identity) ==> identity.len() == 32
}

/// What the state file is known to hold in each phase.
pub open spec fn durable(agent: AgentView, disk: Option<StateView>) -> bool {
    match agent.phase {
        PhaseView::Loading => true,
        PhaseView::SavingKey(key) => {
            &&& key.len() == 32
            &&& agent.state.machine_key_seed == Some(key)
        },
        PhaseView::Connecting(key) => {
            &&& key.len() == 32
            &&& agent.state.machine_key_seed == Some(key)
            &&& pin_sized(agent.state)
            &&& disk == Some(agent.state)
        },
        PhaseView::SavingPin(key) => {
            &&& key.len() == 32
            &&& agent.state.machine_key_seed == Some(key)
            &&& pin_sized(agent.state)
            &&& disk is Some
            &&& disk->Some_0 == (StateView {
                server_identity: disk->Some_0.server_identity,
                ..agent.state
            })
        },
        PhaseView::Registering(key) => {
            &&& key.len() == 32
            &&& agent.state.machine_key_seed == Some(key)
            &&& pin_sized(agent.state)
            &&& disk == Some(agent.state)
        },
        PhaseView::SavingSession(token) => {
            &&& agent.state.session_token == Some(token)
            &&& agent.state.machine_id is Some
            &&& disk is Some
            &&& disk->Some_0.machine_key_seed == agent.state.machine_key_seed
            &&& disk->Some_0.server_identity == agent.state.server_identity
        },
        PhaseView::Running(token) => {
            &&& agent.state.session_token == Some(token)
            &&& agent.state.machine_id is Some
            &&& disk == Some(agent.state)
        },
        PhaseView::Stopped => true,
    }
}

/// The first inputs of a well-sized sequence are well sized.
proof fn lemma_well_sized_take(inputs: Seq<Input>, n: int)
    requires
        well_sized(inputs),
        0 <= n <= inputs.len(),
    ensures
        well_sized(inputs.take(n)),
{
    assert forall|i: int| 0 <= i < n implies (#[trigger] inputs.take(n)[i]) == inputs[i] by {}
    assert(well_sized(inputs.take(n)));
}

/// Nothing is used before it is persisted: the machine key before the server hears of it,
/// the pinned identity before the machine registers, and the session before it runs. So
/// holds [`durable`] at every point of every run from a cold start.
pub proof fn law_persisted_before_used(
    config: ConfigView,
    platform: Seq<char>,
    label: Seq<char>,
    inputs: Seq<Input>,
)
    requires
        well_sized(inputs),
    ensures
        durable(
            run(AgentView::cold(config, platform, label), inputs),
            disk(AgentView::cold(config, platform, label), inputs),
        ),
    decreases inputs.len(),
{
    if inputs.len() > 0 {
        let earlier = inputs.drop_last();
        lemma_well_sized_take(inputs, inputs.len() - 1);
        assert(earlier == inputs.take(inputs.len() - 1));
        law_persisted_before_used(config, platform, label, earlier);
        assert(inputs.last() == inputs[inputs.len() - 1]);
    }
}

/// Whether the agent is about to meet the server, or has met it, with this key.
pub open spec fn presents(agent: AgentView, key: Seq<u8>) -> bool {
    agent.phase == PhaseView::Connecting(key) || agent.phase == PhaseView::Registering(key)
}

/// Once the agent reaches out with a key, the state file holds that key wherever it is
/// known what the file holds.
proof fn lemma_file_keeps_the_key(agent: AgentView, inputs: Seq<Input>, n: int, key: Seq<u8>)
    requires
        0 <= n <= inputs.len(),
        well_sized(inputs),
        !(run(agent, inputs.take(n)).phase is Loading),
        run(agent, inputs.take(n)).state.machine_key_seed == Some(key),
        pin_sized(run(agent, inputs.take(n)).state),
        disk(agent, inputs.take(n)) matches Some(file) ==> {
            &&& file.machine_key_seed == Some(key)
            &&& pin_sized(file)
        },
    ensures
        !(run(agent, inputs).phase is Loading),
        run(agent, inputs).state.machine_key_seed == Some(key),
        pin_sized(run(agent, inputs).state),
        disk(agent, inputs) matches Some(file) ==> {
            &&& file.machine_key_seed == Some(key)
            &&& pin_sized(file)
        },
    decreases inputs.len(),
{
    if n == inputs.len() {
        assert(inputs.take(n) == inputs);
    } else {
        let earlier = inputs.drop_last();
        lemma_well_sized_take(inputs, inputs.len() - 1);
        assert(earlier == inputs.take(inputs.len() - 1));
        assert(earlier.take(n) == inputs.take(n));
        lemma_file_keeps_the_key(agent, earlier, n, key);
        assert(inputs.last() == inputs[inputs.len() - 1]);
    }
}

/// Once the agent reaches out to the server with a pin, or after pinning one, the state file
/// holds that pin wherever it is known what the file holds.
proof fn lemma_file_keeps_the_pin(agent: AgentView, inputs: Seq<Input>, n: int, pin: Seq<u8>)
    requires
        0 <= n <= inputs.len(),
        judged_run(agent, inputs),
        !(run(agent, inputs.take(n)).phase is Loading),
        run(agent, inputs.take(n)).state.server_identity == Some(pin),
        disk(agent, inputs.take(n)) matches Some(file) ==> file.server_identity == Some(pin),
    ensures
        !(run(agent, inputs).phase is Loading),
        run(agent, inputs).state.server_identity == Some(pin),
        disk(agent, inputs) matches Some(file) ==> file.server_identity == Some(pin),
    decreases inputs.len(),
{
    if n == inputs.len() {
        assert(inputs.take(n) == inputs);
    } else {
        let earlier = inputs.drop_last();
        assert(earlier.take(n) == inputs.take(n));
        lemma_file_keeps_the_pin(agent, earlier, n, pin);
    }
}

/// A restarted machine is the same machine: whatever key a run reached out with, and
/// whatever happened to that run afterwards, the next run that reads the state file reaches
/// out with that key again, and draws none. A save that failed leaves nothing known of the
/// file, and so nothing promised of it.
pub proof fn law_restart_keeps_the_key(
    config: ConfigView,
    platform: Seq<char>,
    label: Seq<char>,
    inputs: Seq<Input>,
    n: int,
    key: Seq<u8>,
    file: StateView,
    restarted: AgentView,
    drawn: Option<Seq<u8>>,
)
    requires
        well_sized(inputs),
        0 <= n <= inputs.len(),
        presents(run(AgentView::cold(config, platform, label), inputs.take(n)), key),
        disk(AgentView::cold(config, platform, label), inputs) == Some(file),
        restarted.phase is Loading,
    ensures
        file.machine_key_seed == Some(key),
        ({
            let after = advance(
                restarted,
                Input { event: EventView::Loaded(LoadView::Parsed(file)), drawn },
            );
            &&& after.state == file
            &&& after.phase == PhaseView::Connecting(key)
        }),
{
    let cold = AgentView::cold(config, platform, label);
    lemma_well_sized_take(inputs, n);
    law_persisted_before_used(config, platform, label, inputs.take(n));
    lemma_file_keeps_the_key(cold, inputs, n, key);
    law_persisted_key_is_reused(restarted, file, key, drawn);
}

/// A pin survives a restart: whatever server identity a run had pinned when it reached out
/// or registered, and whatever happened to that run afterwards, the state file holds it, and
/// the next run that reads the file connects only to a server with that identity. A save
/// that failed leaves nothing known of the file, and so nothing promised of it.
pub proof fn law_restart_keeps_the_pin(
    config: ConfigView,
    platform: Seq<char>,
    label: Seq<char>,
    inputs: Seq<Input>,
    n: int,
    key: Seq<u8>,
    pin: Seq<u8>,
    file: StateView,
    restarted: AgentView,
    drawn: Option<Seq<u8>>,
)
    requires
        well_sized(inputs),
        judged_run(AgentView::cold(config, platform, label), inputs),
        0 <= n <= inputs.len(),
        presents(run(AgentView::cold(config, platform, label), inputs.take(n)), key),
        run(AgentView::cold(config, platform, label), inputs.take(n)).state.server_identity == Some(
            pin,
        ),
        disk(AgentView::cold(config, platform, label), inputs) == Some(file),
        restarted.phase is Loading,
    ensures
        file.server_identity == Some(pin),
        restarted.next(EventView::Loaded(LoadView::Parsed(file)), drawn) is Some,
        restarted.next(EventView::Loaded(LoadView::Parsed(file)), drawn)->Some_0.1 == (
        ActionView::Connect {
            host: restarted.config.host,
            discovery_port: restarted.config.discovery_port,
            pinned: Some(pin),
        }),
{
    let cold = AgentView::cold(config, platform, label);
    lemma_well_sized_take(inputs, n);
    law_persisted_before_used(config, platform, label, inputs.take(n));
    lemma_file_keeps_the_key(cold, inputs, n, key);
    lemma_file_keeps_the_pin(cold, inputs, n, pin);
}

/// How many steps an agent can still take.
pub open spec fn steps_left(phase: PhaseView) -> nat {
    match phase {
        PhaseView::Loading => 7,
        PhaseView::SavingKey(_) => 6,
        PhaseView::Connecting(_) => 5,
        PhaseView::SavingPin(_) => 4,
        PhaseView::Registering(_) => 3,
        PhaseView::SavingSession(_) => 2,
        PhaseView::Running(_) => 1,
        PhaseView::Stopped => 0,
    }
}

/// The agent never goes back: each event that it was waiting for brings it strictly
/// further, so it is running or has stopped after a handful of them.
pub proof fn law_always_moves_on(agent: AgentView, event: EventView, drawn: Option<Seq<u8>>)
    requires
        agent.next(event, drawn) is Some,
    ensures
        steps_left(agent.next(event, drawn)->Some_0.0.phase) < steps_left(agent.phase),
        agent.next(event, drawn)->Some_0.1 is Exit <==> agent.next(
            event,
            drawn,
        )->Some_0.0.phase is Stopped,
{
}

} // verus!
