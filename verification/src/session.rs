//! What the agent does while it runs: the liveness check-ins and the server's push stream.

use vstd::prelude::*;
use crate::authed::{authed, AuthedRequest};
use crate::error::{AgentError, ErrorView};

verus! {

/// Seconds between two check-ins; the first one is due at once.
pub const CHECK_IN_INTERVAL_SECS: u64 = 60;

/// The liveness heartbeat.
#[derive(Debug)]
pub struct CheckInRequest {
    pub agent_version: String,
}

/// The request that opens the push stream.
#[derive(Debug)]
pub struct Empty {}

/// What the check-in loop learns.
#[derive(Debug)]
pub enum CheckInEvent {
    /// The loop begins.
    Started,
    /// A wait is over, this many whole seconds after the loop began.
    Ticked { elapsed_secs: u64 },
    /// The server accepted the check-in.
    Accepted,
    /// The check-in failed.
    Failed(String),
}

/// What the check-in loop does next.
pub enum CheckInAction {
    /// Wait until the next check-in is due, this many seconds after the loop began; not at
    /// all if they have passed.
    AwaitTick { due_secs: u64 },
    /// Send this check-in.
    Send(AuthedRequest<CheckInRequest>),
    /// End the run with this error.
    Stop(AgentError),
}

/// The mathematical content of a [`CheckInEvent`].
pub enum CheckInEventView {
    Started,
    Ticked { elapsed_secs: u64 },
    Accepted,
    Failed(Seq<char>),
}

/// The mathematical content of a [`CheckInAction`].
pub enum CheckInActionView {
    AwaitTick { due_secs: u64 },
    Send { agent_version: Seq<char>, metadata: Map<Seq<char>, Seq<Seq<u8>>> },
    Stop(ErrorView),
}

impl View for CheckInEvent {
    type V = CheckInEventView;

    open spec fn view(&self) -> CheckInEventView {
        match *self {
            CheckInEvent::Started => CheckInEventView::Started,
            CheckInEvent::Ticked { elapsed_secs } => CheckInEventView::Ticked { elapsed_secs },
            CheckInEvent::Accepted => CheckInEventView::Accepted,
            CheckInEvent::Failed(cause) => CheckInEventView::Failed(cause@),
        }
    }
}

impl View for CheckInAction {
    type V = CheckInActionView;

    open spec fn view(&self) -> CheckInActionView {
        match *self {
            CheckInAction::AwaitTick { due_secs } => CheckInActionView::AwaitTick { due_secs },
            CheckInAction::Send(request) => CheckInActionView::Send {
                agent_version: request.message.agent_version@,
                metadata: crate::authed::metadata_entries(request.metadata),
            },
            CheckInAction::Stop(error) => CheckInActionView::Stop(error@),
        }
    }
}

/// When the check-ins are due, counted in seconds from the beginning of the loop.
#[derive(Clone, Copy, Debug)]
pub struct Schedule {
    /// When the next check-in is due.
    pub due_secs: u64,
}

/// The due time after this one: an interval later, as far as seconds can be counted.
pub open spec fn due_after(due_secs: u64) -> u64 {
    if due_secs + CHECK_IN_INTERVAL_SECS <= u64::MAX {
        (due_secs + CHECK_IN_INTERVAL_SECS) as u64
    } else {
        u64::MAX
    }
}

/// What the check-in loop does upon an event, and when the next check-in is due after it:
/// one check-in per due time, under the session token, until one fails.
pub open spec fn check_in_next(
    due_secs: u64,
    token: Seq<char>,
    agent_version: Seq<char>,
    event: CheckInEventView,
) -> (u64, CheckInActionView) {
    match event {
        CheckInEventView::Started => (due_secs, CheckInActionView::AwaitTick { due_secs }),
        CheckInEventView::Ticked { elapsed_secs } => if elapsed_secs >= due_secs {
            (
                due_after(due_secs),
                CheckInActionView::Send {
                    agent_version,
                    metadata: crate::authed::bearer_entries(token),
                },
            )
        } else {
            (due_secs, CheckInActionView::AwaitTick { due_secs })
        },
        CheckInEventView::Accepted => (due_secs, CheckInActionView::AwaitTick { due_secs }),
        CheckInEventView::Failed(cause) => (
            due_secs,
            CheckInActionView::Stop(ErrorView::CheckIn { cause }),
        ),
    }
}

impl Schedule {
    /// The schedule of a loop that begins now: the first check-in is due at once.
    pub fn new() -> (schedule: Schedule)
        ensures
            schedule.due_secs == 0,
    {
        Schedule { due_secs: 0 }
    }
}

/// The periodic liveness heartbeat, one event at a time. A failed check-in, a refused
/// token among them, ends the run.
pub fn check_in_loop(
    schedule: &mut Schedule,
    token: &str,
    agent_version: &str,
    event: CheckInEvent,
) -> (action: CheckInAction)
    ensures
        (final(schedule).due_secs, action@) == check_in_next(
            old(schedule).due_secs,
            token@,
            agent_version@,
            event@,
        ),
        action is Send <==> (event matches CheckInEvent::Ticked { elapsed_secs } && elapsed_secs
            >= old(schedule).due_secs),
        action matches CheckInAction::Send(request) ==> request.message.agent_version@
            == agent_version@ && crate::authed::metadata_entries(request.metadata)
            == crate::authed::bearer_entries(token@),
        action matches CheckInAction::AwaitTick { due_secs } ==> due_secs == old(
            schedule,
        ).due_secs && final(schedule).due_secs == due_secs,
        action matches CheckInAction::Stop(error) ==> (event matches CheckInEvent::Failed(cause)
            && error == (AgentError::CheckIn { cause })),
        action is Send && old(schedule).due_secs + 60 <= u64::MAX ==> final(schedule).due_secs
            == old(schedule).due_secs + 60,
{
    match event {
        CheckInEvent::Started => CheckInAction::AwaitTick { due_secs: schedule.due_secs },
        CheckInEvent::Ticked { elapsed_secs } => {
            if elapsed_secs < schedule.due_secs {
                return CheckInAction::AwaitTick { due_secs: schedule.due_secs };
            }
            schedule.due_secs = if schedule.due_secs <= u64::MAX - CHECK_IN_INTERVAL_SECS {
                schedule.due_secs + CHECK_IN_INTERVAL_SECS
            } else {
                u64::MAX
            };
            CheckInAction::Send(
                authed(token, CheckInRequest { agent_version: agent_version.to_owned() }),
            )
        },
        CheckInEvent::Accepted => CheckInAction::AwaitTick { due_secs: schedule.due_secs },
        CheckInEvent::Failed(cause) => CheckInAction::Stop(AgentError::CheckIn { cause }),
    }
}

/// What the server pushes.
#[derive(Clone, Copy, Debug, PartialEq, Eq, Structural)]
pub enum PushPayload {
    /// The device configuration.
    Config { location_enabled: bool },
    /// A sign of life.
    KeepAlive,
}

/// What the push stream's reader learns.
#[derive(Debug)]
pub enum SubscribeEvent {
    /// The reader begins.
    Started,
    /// The stream is open.
    Opened,
    /// The stream could not be opened.
    OpenFailed(String),
    /// A push arrived; one without a payload is possible.
    Pushed(Option<PushPayload>),
    /// The stream broke.
    StreamFailed(String),
    /// The server closed the stream.
    Closed,
}

/// What the push stream's reader does next.
pub enum SubscribeAction {
    /// Open the stream with this request.
    Open(AuthedRequest<Empty>),
    /// Log this payload, if there is one, and wait for the next push.
    AwaitPush(Option<PushPayload>),
    /// End the run.
    Stop(Result<(), AgentError>),
}

/// The mathematical content of a [`SubscribeEvent`].
pub enum SubscribeEventView {
    Started,
    Opened,
    OpenFailed(Seq<char>),
    Pushed(Option<PushPayload>),
    StreamFailed(Seq<char>),
    Closed,
}

/// The mathematical content of a [`SubscribeAction`].
pub enum SubscribeActionView {
    Open { message: Empty, metadata: Map<Seq<char>, Seq<Seq<u8>>> },
    AwaitPush(Option<PushPayload>),
    Stop(Result<(), ErrorView>),
}

/// The mathematical content of how a run ended.
pub open spec fn ending(result: Result<(), AgentError>) -> Result<(), ErrorView> {
    match result {
        Ok(_) => Ok(()),
        Err(error) => Err(error@),
    }
}

impl View for SubscribeEvent {
    type V = SubscribeEventView;

    open spec fn view(&self) -> SubscribeEventView {
        match *self {
            SubscribeEvent::Started => SubscribeEventView::Started,
            SubscribeEvent::Opened => SubscribeEventView::Opened,
            SubscribeEvent::OpenFailed(cause) => SubscribeEventView::OpenFailed(cause@),
            SubscribeEvent::Pushed(payload) => SubscribeEventView::Pushed(payload),
            SubscribeEvent::StreamFailed(cause) => SubscribeEventView::StreamFailed(cause@),
            SubscribeEvent::Closed => SubscribeEventView::Closed,
        }
    }
}

impl View for SubscribeAction {
    type V = SubscribeActionView;

    open spec fn view(&self) -> SubscribeActionView {
        match *self {
            SubscribeAction::Open(request) => SubscribeActionView::Open {
                message: request.message,
                metadata: crate::authed::metadata_entries(request.metadata),
            },
            SubscribeAction::AwaitPush(payload) => SubscribeActionView::AwaitPush(payload),
            SubscribeAction::Stop(result) => SubscribeActionView::Stop(ending(result)),
        }
    }
}

/// What the push stream's reader does upon an event: it opens the stream under the session
/// token, takes note of each push, and ends well where the server closes the stream.
pub open spec fn subscribe_next(token: Seq<char>, event: SubscribeEventView) -> SubscribeActionView {
    match event {
        SubscribeEventView::Started => SubscribeActionView::Open {
            message: Empty {  },
            metadata: crate::authed::bearer_entries(token),
        },
        SubscribeEventView::Opened => SubscribeActionView::AwaitPush(None),
        SubscribeEventView::OpenFailed(cause) => SubscribeActionView::Stop(
            Err(ErrorView::Subscribe { cause }),
        ),
        SubscribeEventView::Pushed(payload) => SubscribeActionView::AwaitPush(payload),
        SubscribeEventView::StreamFailed(cause) => SubscribeActionView::Stop(
            Err(ErrorView::PushStream { cause }),
        ),
        SubscribeEventView::Closed => SubscribeActionView::Stop(Ok(())),
    }
}

/// Holds the server push stream open, one event at a time, and takes note of what arrives.
pub fn subscribe_loop(token: &str, event: SubscribeEvent) -> (action: SubscribeAction)
    ensures
        action@ == subscribe_next(token@, event@),
        event matches SubscribeEvent::Pushed(payload) ==> action == SubscribeAction::AwaitPush(
            payload,
        ),
        event is Started ==> (action matches SubscribeAction::Open(request)
            && crate::authed::metadata_entries(request.metadata) == crate::authed::bearer_entries(
            token@,
        )),
        event matches SubscribeEvent::OpenFailed(cause) ==> action == SubscribeAction::Stop(
            Err(AgentError::Subscribe { cause }),
        ),
        event matches SubscribeEvent::StreamFailed(cause) ==> action == SubscribeAction::Stop(
            Err(AgentError::PushStream { cause }),
        ),
{
    match event {
        SubscribeEvent::Started => SubscribeAction::Open(authed(token, Empty {  })),
        SubscribeEvent::Opened => SubscribeAction::AwaitPush(None),
        SubscribeEvent::OpenFailed(cause) => SubscribeAction::Stop(
            Err(AgentError::Subscribe { cause }),
        ),
        SubscribeEvent::Pushed(payload) => SubscribeAction::AwaitPush(payload),
        SubscribeEvent::StreamFailed(cause) => SubscribeAction::Stop(
            Err(AgentError::PushStream { cause }),
        ),
        SubscribeEvent::Closed => SubscribeAction::Stop(Ok(())),
    }
}

/// A run of check-ins ends only with an error, and only where a check-in failed: nothing
/// else that the loop learns stops it.
pub proof fn law_check_in_ends_only_by_failure(
    due_secs: u64,
    token: Seq<char>,
    agent_version: Seq<char>,
    event: CheckInEventView,
)
    ensures
        check_in_next(due_secs, token, agent_version, event).1 is Stop <==> event is Failed,
{
}

/// When the next check-in is due after a loop has learned these events.
pub open spec fn due_at(
    token: Seq<char>,
    agent_version: Seq<char>,
    events: Seq<CheckInEventView>,
) -> u64
    decreases events.len(),
{
    if events.len() == 0 {
        0
    } else {
        check_in_next(
            due_at(token, agent_version, events.drop_last()),
            token,
            agent_version,
            events.last(),
        ).0
    }
}

/// The check-ins that a loop has sent after it has learned these events: the event that
/// brought each of them about, and what was sent.
pub open spec fn check_ins(
    token: Seq<char>,
    agent_version: Seq<char>,
    events: Seq<CheckInEventView>,
) -> Seq<(CheckInEventView, CheckInActionView)>
    decreases events.len(),
{
    if events.len() == 0 {
        Seq::empty()
    } else {
        let earlier = check_ins(token, agent_version, events.drop_last());
        let due_secs = due_at(token, agent_version, events.drop_last());
        let action = check_in_next(due_secs, token, agent_version, events.last()).1;
        if action is Send {
            earlier.push((events.last(), action))
        } else {
            earlier
        }
    }
}

/// Whatever a loop learns, its first check-in is due at once and each later one sixty seconds
/// after the one before: the check-in behind `k` others goes out upon a tick, never before
/// `k` times sixty seconds have passed, and every check-in carries the agent's version and the
/// session token. (As far as the seconds of so many check-ins can be counted.)
pub proof fn law_check_ins_keep_the_interval(
    token: Seq<char>,
    agent_version: Seq<char>,
    events: Seq<CheckInEventView>,
)
    requires
        events.len() * 60 <= u64::MAX,
    ensures
        due_at(token, agent_version, Seq::empty()) == 0,
        due_at(token, agent_version, events) == check_ins(token, agent_version, events).len() * 60,
        check_ins(token, agent_version, events).len() <= events.len(),
        forall|k: int|
            0 <= k < check_ins(token, agent_version, events).len() ==> {
                let (event, sent) = #[trigger] check_ins(token, agent_version, events)[k];
                &&& event matches CheckInEventView::Ticked { elapsed_secs } && elapsed_secs >= k
                    * 60
                &&& sent == (CheckInActionView::Send {
                    agent_version,
                    metadata: crate::authed::bearer_entries(token),
                })
            },
    decreases events.len(),
{
    if events.len() > 0 {
        law_check_ins_keep_the_interval(token, agent_version, events.drop_last());
    }
}

/// A check-in goes out as soon as it is due: at the first tick that comes no earlier.
pub proof fn law_due_check_in_is_sent(
    token: Seq<char>,
    agent_version: Seq<char>,
    events: Seq<CheckInEventView>,
    elapsed_secs: u64,
)
    requires
        elapsed_secs >= due_at(token, agent_version, events),
    ensures
        check_ins(
            token,
            agent_version,
            events.push(CheckInEventView::Ticked { elapsed_secs }),
        ).len() == check_ins(token, agent_version, events).len() + 1,
{
    assert(events.push(CheckInEventView::Ticked { elapsed_secs }).drop_last() == events);
}

/// A check-in is sent upon a tick that is not before the due time, and upon nothing else; the
/// next one is then due sixty seconds after this one was (as far as seconds can be counted).
/// Upon anything else but a failure the loop waits for exactly the due time it had.
pub proof fn law_sends_only_when_due(
    due_secs: u64,
    token: Seq<char>,
    agent_version: Seq<char>,
    event: CheckInEventView,
)
    ensures
        ({
            let (after, action) = check_in_next(due_secs, token, agent_version, event);
            let due = event matches CheckInEventView::Ticked { elapsed_secs } && elapsed_secs
                >= due_secs;
            &&& action is Send <==> due
            &&& due ==> {
                &&& action == (CheckInActionView::Send {
                    agent_version,
                    metadata: crate::authed::bearer_entries(token),
                })
                &&& due_secs + 60 <= u64::MAX ==> after == due_secs + 60
                &&& due_secs + 60 > u64::MAX ==> after == u64::MAX
            }
            &&& !due ==> after == due_secs
            &&& !due && !(event is Failed) ==> action == (CheckInActionView::AwaitTick { due_secs })
            &&& event matches CheckInEventView::Failed(cause) ==> action == CheckInActionView::Stop(
                ErrorView::CheckIn { cause },
            )
        }),
{
}

/// The push stream's reader, event by event: it opens the stream under the session token and
/// with nothing else, hands on each payload as it came, one without content among them, and
/// ends with the error of what failed, or without one where the server closed the stream.
pub proof fn law_subscription_answers(token: Seq<char>, event: SubscribeEventView)
    ensures
        match event {
            SubscribeEventView::Started => subscribe_next(token, event) == (
            SubscribeActionView::Open {
                message: Empty {  },
                metadata: crate::authed::bearer_entries(token),
            }),
            SubscribeEventView::Opened => subscribe_next(token, event)
                == SubscribeActionView::AwaitPush(None),
            SubscribeEventView::OpenFailed(cause) => subscribe_next(token, event)
                == SubscribeActionView::Stop(Err(ErrorView::Subscribe { cause })),
            SubscribeEventView::Pushed(payload) => subscribe_next(token, event)
                == SubscribeActionView::AwaitPush(payload),
            SubscribeEventView::StreamFailed(cause) => subscribe_next(token, event)
                == SubscribeActionView::Stop(Err(ErrorView::PushStream { cause })),
            SubscribeEventView::Closed => subscribe_next(token, event) == SubscribeActionView::Stop(
                Ok(()),
            ),
        },
{
}

/// The push stream's reader goes on whatever is pushed, and ends without an error exactly
/// where the server closes the stream.
pub proof fn law_subscription_ends_well_only_by_closing(
    token: Seq<char>,
    event: SubscribeEventView,
)
    ensures
        event is Pushed ==> subscribe_next(token, event) is AwaitPush,
        subscribe_next(token, event) == SubscribeActionView::Stop(Ok(())) <==> event is Closed,
{
}

} // verus!
