//! The event loop of one running worker: what to do with each message that
//! the worker sends and each request that a caller makes. The loop owns the
//! connection; callers wait on reply slots, which the loop resolves.

use crate::error::{ErrorView, SupervisorError};
use crate::json::{Json, JsonValue};
use crate::logs::{LogEntry, LogEntryView};
use crate::protocol::{RuntimeToMain, RuntimeToMainView};
use crate::RuntimeId;
use vstd::multiset::Multiset;
use vstd::prelude::*;

verus! {

/// Seconds that a caller waits for the configuration of a running worker.
pub const LIVE_CONFIG_TIMEOUT_SECS: u64 = 5;

/// Names the reply slot on which one caller waits.
pub type SlotId = u64;

/// What a caller asks of the loop.
#[derive(Debug, Clone, Copy, PartialEq, Eq, Structural)]
pub enum WorkerRequest {
    /// The configuration that the worker runs with, to be delivered to the slot.
    GetConfig(SlotId),
    /// The end of the worker, to be acknowledged on the slot.
    Stop(SlotId),
}

/// Where the loop stands.
#[derive(Debug, Clone, Copy, PartialEq, Eq, Structural)]
pub enum LoopPhase {
    /// No request for the configuration is under way.
    Idle,
    /// The request of this slot is being written to the worker.
    Writing(SlotId),
    /// The request of this slot was written; the worker's answer is awaited.
    Pending(SlotId),
    /// The loop is over.
    Terminated,
}

/// The state of the loop of one worker.
#[derive(Debug, Clone, Copy, PartialEq, Eq, Structural)]
pub struct LoopState {
    /// The runtime whose worker the loop serves.
    pub runtime_id: RuntimeId,
    /// Where the loop stands.
    pub phase: LoopPhase,
}

/// What happened.
#[derive(Debug, PartialEq)]
pub enum LoopEvent {
    /// The worker sent a message.
    Message(RuntimeToMain),
    /// The worker sent a line that holds no message.
    Undecodable,
    /// The worker closed the connection.
    Closed,
    /// Reading from the worker failed.
    ReadFailed,
    /// A caller made a request.
    Request(WorkerRequest),
    /// The request for the configuration was written to the worker, or could
    /// not be written.
    Written(bool),
    /// The caller of this slot waits no more.
    Abandoned(SlotId),
}

/// What the loop has its driver do.
#[derive(Debug, PartialEq)]
pub enum LoopEffect {
    /// Hand a log entry to the log store, under the runtime it came from.
    Forward { runtime_id: RuntimeId, entry: LogEntry },
    /// Write a request for the configuration to the worker, and report
    /// whether that worked.
    WriteGetConfig,
    /// Write a request to stop to the worker; whether that works does not matter.
    WriteStop,
    /// Complete a slot with the worker's configuration.
    Deliver { slot: SlotId, config: Json },
    /// Complete a slot that waits for the stop to be sent.
    Acknowledge { slot: SlotId },
    /// Drop a slot: its caller sees the request cancelled.
    Cancel { slot: SlotId },
    /// Refuse a slot: another request for the configuration is in flight.
    Reject { slot: SlotId },
}

/// What an event holds.
pub enum LoopEventView {
    Message(RuntimeToMainView),
    Undecodable,
    Closed,
    ReadFailed,
    Request(WorkerRequest),
    Written(bool),
    Abandoned(SlotId),
}

/// What an effect holds.
pub enum LoopEffectView {
    Forward { runtime_id: RuntimeId, entry: LogEntryView },
    WriteGetConfig,
    WriteStop,
    Deliver { slot: SlotId, config: JsonValue },
    Acknowledge { slot: SlotId },
    Cancel { slot: SlotId },
    Reject { slot: SlotId },
}

impl View for LoopEvent {
    type V = LoopEventView;

    open spec fn view(&self) -> LoopEventView {
        match self {
            LoopEvent::Message(message) => LoopEventView::Message(message@),
            LoopEvent::Undecodable => LoopEventView::Undecodable,
            LoopEvent::Closed => LoopEventView::Closed,
            LoopEvent::ReadFailed => LoopEventView::ReadFailed,
            LoopEvent::Request(request) => LoopEventView::Request(*request),
            LoopEvent::Written(ok) => LoopEventView::Written(*ok),
            LoopEvent::Abandoned(slot) => LoopEventView::Abandoned(*slot),
        }
    }
}

impl View for LoopEffect {
    type V = LoopEffectView;

    open spec fn view(&self) -> LoopEffectView {
        match self {
            LoopEffect::Forward { runtime_id, entry } => LoopEffectView::Forward {
                runtime_id: *runtime_id,
                entry: entry@,
            },
            LoopEffect::WriteGetConfig => LoopEffectView::WriteGetConfig,
            LoopEffect::WriteStop => LoopEffectView::WriteStop,
            LoopEffect::Deliver { slot, config } => LoopEffectView::Deliver {
                slot: *slot,
                config: config@,
            },
            LoopEffect::Acknowledge { slot } => LoopEffectView::Acknowledge { slot: *slot },
            LoopEffect::Cancel { slot } => LoopEffectView::Cancel { slot: *slot },
            LoopEffect::Reject { slot } => LoopEffectView::Reject { slot: *slot },
        }
    }
}

/// What a sequence of effects holds.
pub open spec fn effects_view(effects: Seq<LoopEffect>) -> Seq<LoopEffectView> {
    effects.map_values(|effect: LoopEffect| effect@)
}

impl LoopState {
    /// The state of a loop that has just been given the connection.
    pub open spec fn initial(runtime_id: RuntimeId) -> LoopState {
        LoopState { runtime_id, phase: LoopPhase::Idle }
    }

    /// The slot whose request for the configuration is under way.
    pub open spec fn in_flight(self) -> Option<SlotId> {
        match self.phase {
            LoopPhase::Writing(slot) => Some(slot),
            LoopPhase::Pending(slot) => Some(slot),
            _ => None,
        }
    }

    /// The effects that resolve what is under way when the loop ends.
    pub open spec fn cancel_in_flight(self) -> Seq<LoopEffectView> {
        match self.in_flight() {
            Some(slot) => seq![LoopEffectView::Cancel { slot }],
            None => Seq::empty(),
        }
    }

    /// The state of a loop that is over.
    pub open spec fn terminated(self) -> LoopState {
        LoopState { phase: LoopPhase::Terminated, ..self }
    }
}

/// One step of the loop: the state after an event, and what the driver has to
/// do, in order.
pub open spec fn step(state: LoopState, event: LoopEventView) -> (LoopState, Seq<LoopEffectView>) {
    if state.phase == LoopPhase::Terminated {
        match event {
            LoopEventView::Request(WorkerRequest::GetConfig(slot)) => (
                state,
                seq![LoopEffectView::Cancel { slot }],
            ),
            LoopEventView::Request(WorkerRequest::Stop(slot)) => (
                state,
                seq![LoopEffectView::Cancel { slot }],
            ),
            _ => (state, Seq::empty()),
        }
    } else {
        match event {
            LoopEventView::Message(RuntimeToMainView::Log(entry)) => (
                state,
                seq![LoopEffectView::Forward { runtime_id: state.runtime_id, entry }],
            ),
            LoopEventView::Message(RuntimeToMainView::Config(config)) => match state.phase {
                LoopPhase::Pending(slot) => (
                    LoopState { phase: LoopPhase::Idle, ..state },
                    seq![LoopEffectView::Deliver { slot, config }],
                ),
                _ => (state, Seq::empty()),
            },
            LoopEventView::Message(_) => (state, Seq::empty()),
            LoopEventView::Undecodable => (state, Seq::empty()),
            LoopEventView::Closed => (state.terminated(), state.cancel_in_flight()),
            LoopEventView::ReadFailed => (state.terminated(), state.cancel_in_flight()),
            LoopEventView::Request(WorkerRequest::GetConfig(slot)) => match state.phase {
                LoopPhase::Idle => (
                    LoopState { phase: LoopPhase::Writing(slot), ..state },
                    seq![LoopEffectView::WriteGetConfig],
                ),
                _ => (state, seq![LoopEffectView::Reject { slot }]),
            },
            LoopEventView::Written(ok) => match state.phase {
                LoopPhase::Writing(slot) => if ok {
                    (LoopState { phase: LoopPhase::Pending(slot), ..state }, Seq::empty())
                } else {
                    (
                        LoopState { phase: LoopPhase::Idle, ..state },
                        seq![LoopEffectView::Cancel { slot }],
                    )
                },
                _ => (state, Seq::empty()),
            },
            LoopEventView::Abandoned(slot) => if state.in_flight() == Some(slot) {
                (
                    LoopState { phase: LoopPhase::Idle, ..state },
                    seq![LoopEffectView::Cancel { slot }],
                )
            } else {
                (state, Seq::empty())
            },
            LoopEventView::Request(WorkerRequest::Stop(slot)) => (
                state.terminated(),
                seq![LoopEffectView::WriteStop, LoopEffectView::Acknowledge { slot }]
                    + state.cancel_in_flight(),
            ),
        }
    }
}

/// The state of a loop that has just been given the connection.
pub fn start_loop(runtime_id: RuntimeId) -> (r: LoopState)
    ensures
        r == LoopState::initial(runtime_id),
{
    LoopState { runtime_id, phase: LoopPhase::Idle }
}

/// Whether the loop is over.
pub fn is_terminated(state: LoopState) -> (r: bool)
    ensures
        r == (state.phase == LoopPhase::Terminated),
{
    match state.phase {
        LoopPhase::Terminated => true,
        _ => false,
    }
}

/// Adds the effect that resolves what is under way to the effects of a step
/// that ends the loop.
fn push_cancel_in_flight(state: LoopState, effects: &mut Vec<LoopEffect>)
    ensures
        effects_view(final(effects)@) == effects_view(old(effects)@) + state.cancel_in_flight(),
{
    match state.phase {
        LoopPhase::Writing(slot) => {
            effects.push(LoopEffect::Cancel { slot });
            assert(effects_view(effects@) =~= effects_view(old(effects)@)
                + state.cancel_in_flight());
        },
        LoopPhase::Pending(slot) => {
            effects.push(LoopEffect::Cancel { slot });
            assert(effects_view(effects@) =~= effects_view(old(effects)@)
                + state.cancel_in_flight());
        },
        _ => {
            assert(effects_view(effects@) =~= effects_view(old(effects)@)
                + state.cancel_in_flight());
        },
    }
}

/// One step of the loop: takes one event and gives the state after it with
/// what the driver has to do, in order.
pub fn loop_step(state: LoopState, event: LoopEvent) -> (r: (LoopState, Vec<LoopEffect>))
    ensures
        (r.0, effects_view(r.1@)) == step(state, event@),
{
    let mut effects: Vec<LoopEffect> = Vec::new();
    let ghost expected = step(state, event@);
    assert(effects_view(effects@) =~= Seq::<LoopEffectView>::empty());
    if is_terminated(state) {
        match event {
            LoopEvent::Request(WorkerRequest::GetConfig(slot)) => {
                effects.push(LoopEffect::Cancel { slot });
            },
            LoopEvent::Request(WorkerRequest::Stop(slot)) => {
                effects.push(LoopEffect::Cancel { slot });
            },
            _ => {},
        }
        assert(effects_view(effects@) =~= expected.1);
        return (state, effects);
    }
    let terminated = LoopState { runtime_id: state.runtime_id, phase: LoopPhase::Terminated };
    let idle = LoopState { runtime_id: state.runtime_id, phase: LoopPhase::Idle };
    let next = match event {
        LoopEvent::Message(RuntimeToMain::Log(entry)) => {
            effects.push(LoopEffect::Forward { runtime_id: state.runtime_id, entry });
            state
        },
        LoopEvent::Message(RuntimeToMain::Config(config)) => match state.phase {
            LoopPhase::Pending(slot) => {
                effects.push(LoopEffect::Deliver { slot, config });
                idle
            },
            _ => state,
        },
        LoopEvent::Message(_) => state,
        LoopEvent::Undecodable => state,
        LoopEvent::Closed => {
            push_cancel_in_flight(state, &mut effects);
            terminated
        },
        LoopEvent::ReadFailed => {
            push_cancel_in_flight(state, &mut effects);
            terminated
        },
        LoopEvent::Request(WorkerRequest::GetConfig(slot)) => match state.phase {
            LoopPhase::Idle => {
                effects.push(LoopEffect::WriteGetConfig);
                LoopState { runtime_id: state.runtime_id, phase: LoopPhase::Writing(slot) }
            },
            _ => {
                effects.push(LoopEffect::Reject { slot });
                state
            },
        },
        LoopEvent::Written(ok) => match state.phase {
            LoopPhase::Writing(slot) => {
                if ok {
                    LoopState { runtime_id: state.runtime_id, phase: LoopPhase::Pending(slot) }
                } else {
                    effects.push(LoopEffect::Cancel { slot });
                    idle
                }
            },
            _ => state,
        },
        LoopEvent::Abandoned(slot) => {
            let in_flight = match state.phase {
                LoopPhase::Writing(waiting) => waiting == slot,
                LoopPhase::Pending(waiting) => waiting == slot,
                _ => false,
            };
            if in_flight {
                effects.push(LoopEffect::Cancel { slot });
                idle
            } else {
                state
            }
        },
        LoopEvent::Request(WorkerRequest::Stop(slot)) => {
            effects.push(LoopEffect::WriteStop);
            effects.push(LoopEffect::Acknowledge { slot });
            assert(effects_view(effects@) =~= seq![
                LoopEffectView::WriteStop,
                LoopEffectView::Acknowledge { slot },
            ]);
            push_cancel_in_flight(state, &mut effects);
            terminated
        },
    };
    assert(effects_view(effects@) =~= expected.1);
    (next, effects)
}

/// How a wait for the configuration of a running worker ended.
#[derive(Debug, PartialEq)]
pub enum ConfigWait {
    /// The loop delivered the configuration.
    Delivered(Json),
    /// The loop refused the request: another one was in flight.
    Rejected,
    /// The slot was dropped before an answer came.
    Cancelled,
    /// No answer came in time.
    TimedOut,
    /// The request could not be handed to the loop, which is gone.
    NotSent,
}

/// What a wait holds.
pub enum ConfigWaitView {
    Delivered(JsonValue),
    Rejected,
    Cancelled,
    TimedOut,
    NotSent,
}

impl View for ConfigWait {
    type V = ConfigWaitView;

    open spec fn view(&self) -> ConfigWaitView {
        match self {
            ConfigWait::Delivered(config) => ConfigWaitView::Delivered(config@),
            ConfigWait::Rejected => ConfigWaitView::Rejected,
            ConfigWait::Cancelled => ConfigWaitView::Cancelled,
            ConfigWait::TimedOut => ConfigWaitView::TimedOut,
            ConfigWait::NotSent => ConfigWaitView::NotSent,
        }
    }
}

/// What the caller gets after a wait for the configuration.
pub open spec fn wait_result(wait: ConfigWaitView) -> Result<JsonValue, ErrorView> {
    match wait {
        ConfigWaitView::Delivered(config) => Ok(config),
        ConfigWaitView::Rejected => Err(ErrorView::RequestInFlight),
        ConfigWaitView::Cancelled => Err(ErrorView::RequestCancelled),
        ConfigWaitView::TimedOut => Err(ErrorView::RequestTimeout),
        ConfigWaitView::NotSent => Err(ErrorView::RequestCancelled),
    }
}

/// What the caller gets after a wait for the configuration of a running
/// worker: the configuration, or the error that says how the wait ended.
pub fn live_config_result(wait: ConfigWait) -> (r: Result<Json, SupervisorError>)
    ensures
        match r {
            Ok(config) => wait_result(wait@) == Ok::<JsonValue, ErrorView>(config@),
            Err(error) => wait_result(wait@) == Err::<JsonValue, ErrorView>(error@),
        },
{
    match wait {
        ConfigWait::Delivered(config) => Ok(config),
        ConfigWait::Rejected => Err(SupervisorError::RequestInFlight),
        ConfigWait::Cancelled => Err(SupervisorError::RequestCancelled),
        ConfigWait::TimedOut => Err(SupervisorError::RequestTimeout),
        ConfigWait::NotSent => Err(SupervisorError::RequestCancelled),
    }
}

/// The slots that wait on the loop.
pub open spec fn open_slots(state: LoopState) -> Multiset<SlotId> {
    match state.in_flight() {
        Some(slot) => Multiset::singleton(slot),
        None => Multiset::empty(),
    }
}

/// The slot that an event brings to the loop.
pub open spec fn brought(event: LoopEventView) -> Multiset<SlotId> {
    match event {
        LoopEventView::Request(WorkerRequest::GetConfig(slot)) => Multiset::singleton(slot),
        LoopEventView::Request(WorkerRequest::Stop(slot)) => Multiset::singleton(slot),
        _ => Multiset::empty(),
    }
}

/// The slot that an effect resolves.
pub open spec fn resolved_by(effect: LoopEffectView) -> Multiset<SlotId> {
    match effect {
        LoopEffectView::Deliver { slot, .. } => Multiset::singleton(slot),
        LoopEffectView::Acknowledge { slot } => Multiset::singleton(slot),
        LoopEffectView::Cancel { slot } => Multiset::singleton(slot),
        LoopEffectView::Reject { slot } => Multiset::singleton(slot),
        _ => Multiset::empty(),
    }
}

/// The slots that a sequence of effects resolves.
pub open spec fn resolved(effects: Seq<LoopEffectView>) -> Multiset<SlotId>
    decreases effects.len(),
{
    if effects.len() == 0 {
        Multiset::empty()
    } else {
        resolved(effects.drop_last()).add(resolved_by(effects.last()))
    }
}

/// What the effects of up to three steps resolve.
proof fn lemma_resolved_short(effects: Seq<LoopEffectView>)
    requires
        effects.len() <= 3,
    ensures
        effects.len() == 0 ==> resolved(effects) == Multiset::<SlotId>::empty(),
        effects.len() == 1 ==> resolved(effects) =~= resolved_by(effects[0]),
        effects.len() == 2 ==> resolved(effects) =~= resolved_by(effects[0]).add(
            resolved_by(effects[1]),
        ),
        effects.len() == 3 ==> resolved(effects) =~= resolved_by(effects[0]).add(
            resolved_by(effects[1]),
        ).add(resolved_by(effects[2])),
    decreases effects.len(),
{
    if effects.len() > 0 {
        lemma_resolved_short(effects.drop_last());
    }
}

/// No caller is forgotten: every slot that waits on the loop or is brought to
/// it by an event either still waits after the step or is resolved by one of
/// the step's effects, and no slot is resolved twice.
pub proof fn lemma_slots_conserved(state: LoopState, event: LoopEventView)
    ensures
        open_slots(state).add(brought(event)) == open_slots(step(state, event).0).add(
            resolved(step(state, event).1),
        ),
{
    let after = step(state, event);
    lemma_resolved_short(after.1);
    lemma_resolved_short(state.cancel_in_flight());
    assert(open_slots(state).add(brought(event)) =~= open_slots(after.0).add(resolved(after.1)));
}

/// A loop that is over holds no slot, and stays over.
pub proof fn lemma_terminated_is_final(state: LoopState, event: LoopEventView)
    requires
        state.phase == LoopPhase::Terminated,
    ensures
        open_slots(state) == Multiset::<SlotId>::empty(),
        step(state, event).0 == state,
        resolved(step(state, event).1) == brought(event),
{
    lemma_resolved_short(step(state, event).1);
    assert(resolved(step(state, event).1) =~= brought(event));
}

/// A request for the configuration that comes while another is in flight is
/// refused at once, and the one in flight is left as it is.
pub proof fn lemma_second_request_rejected(state: LoopState, slot: SlotId)
    requires
        state.in_flight() is Some,
    ensures
        step(state, LoopEventView::Request(WorkerRequest::GetConfig(slot))) == (
            state,
            seq![LoopEffectView::Reject { slot }],
        ),
{
}

/// A request for the configuration that meets an idle loop is written to the
/// worker, and the worker's answer goes to its slot.
pub proof fn lemma_request_served(runtime_id: RuntimeId, slot: SlotId, config: JsonValue)
    ensures
        ({
            let idle = LoopState::initial(runtime_id);
            let asked = step(idle, LoopEventView::Request(WorkerRequest::GetConfig(slot)));
            let written = step(asked.0, LoopEventView::Written(true));
            let answered = step(
                written.0,
                LoopEventView::Message(RuntimeToMainView::Config(config)),
            );
            &&& asked.1 == seq![LoopEffectView::WriteGetConfig]
            &&& written.1 == Seq::<LoopEffectView>::empty()
            &&& answered.1 == seq![LoopEffectView::Deliver { slot, config }]
            &&& answered.0 == idle
        }),
{
}

/// A caller that gives up frees the loop for the next one: the request in
/// flight is dropped, and a request that comes after it is written to the
/// worker.
pub proof fn lemma_abandoned_frees_the_loop(state: LoopState, slot: SlotId, next: SlotId)
    requires
        state.in_flight() == Some(slot),
    ensures
        ({
            let freed = step(state, LoopEventView::Abandoned(slot));
            &&& freed.0.phase == LoopPhase::Idle
            &&& freed.1 == seq![LoopEffectView::Cancel { slot }]
            &&& step(freed.0, LoopEventView::Request(WorkerRequest::GetConfig(next))).1
                == seq![LoopEffectView::WriteGetConfig]
        }),
{
}

/// The loop ends on exactly three events: the connection closing, a read
/// failing, and a request to stop. Every other event leaves it running.
pub proof fn lemma_termination(state: LoopState, event: LoopEventView)
    requires
        state.phase != LoopPhase::Terminated,
    ensures
        step(state, event).0.phase == LoopPhase::Terminated <==> (event is Closed || event
            is ReadFailed || event matches LoopEventView::Request(WorkerRequest::Stop(_))),
        step(state, event).0.runtime_id == state.runtime_id,
{
}

/// A log entry of the worker is handed on as it came, under the runtime of
/// the loop, and changes nothing in the loop.
pub proof fn lemma_log_forwarded(state: LoopState, entry: LogEntryView)
    requires
        state.phase != LoopPhase::Terminated,
    ensures
        step(state, LoopEventView::Message(RuntimeToMainView::Log(entry))) == (
            state,
            seq![LoopEffectView::Forward { runtime_id: state.runtime_id, entry }],
        ),
{
}

/// The loop after a sequence of events, the first one first, with all the
/// effects of the steps in their order.
pub open spec fn run(state: LoopState, events: Seq<LoopEventView>) -> (
    LoopState,
    Seq<LoopEffectView>,
)
    decreases events.len(),
{
    if events.len() == 0 {
        (state, Seq::empty())
    } else {
        let before = run(state, events.drop_last());
        let last = step(before.0, events.last());
        (last.0, before.1 + last.1)
    }
}

/// The slots that a sequence of events brings to the loop.
pub open spec fn brought_by_all(events: Seq<LoopEventView>) -> Multiset<SlotId>
    decreases events.len(),
{
    if events.len() == 0 {
        Multiset::empty()
    } else {
        brought_by_all(events.drop_last()).add(brought(events.last()))
    }
}

/// The events of a worker that sends log entries, one for each entry.
pub open spec fn log_events(entries: Seq<LogEntryView>) -> Seq<LoopEventView> {
    entries.map_values(|entry: LogEntryView| LoopEventView::Message(RuntimeToMainView::Log(entry)))
}

/// The effects that hand on log entries of a runtime, one for each entry.
pub open spec fn forwards(runtime_id: RuntimeId, entries: Seq<LogEntryView>) -> Seq<
    LoopEffectView,
> {
    entries.map_values(|entry: LogEntryView| LoopEffectView::Forward { runtime_id, entry })
}

/// What two sequences of effects resolve together is what each resolves.
pub proof fn lemma_resolved_concat(first: Seq<LoopEffectView>, second: Seq<LoopEffectView>)
    ensures
        resolved(first + second) == resolved(first).add(resolved(second)),
    decreases second.len(),
{
    if second.len() == 0 {
        assert(first + second == first);
        assert(resolved(first).add(resolved(second)) =~= resolved(first));
    } else {
        lemma_resolved_concat(first, second.drop_last());
        assert((first + second).drop_last() == first + second.drop_last());
        assert((first + second).last() == second.last());
        assert(resolved(first + second) =~= resolved(first).add(resolved(second)));
    }
}

/// Over any sequence of events no caller is forgotten: the slots that waited
/// at the start or were brought on the way are those that still wait at the
/// end together with those that were resolved, each once. Where the loop has
/// ended, all of them were resolved.
pub proof fn lemma_run_slots_conserved(state: LoopState, events: Seq<LoopEventView>)
    ensures
        open_slots(state).add(brought_by_all(events)) == open_slots(run(state, events).0).add(
            resolved(run(state, events).1),
        ),
        run(state, events).0.phase == LoopPhase::Terminated ==> resolved(run(state, events).1)
            == open_slots(state).add(brought_by_all(events)),
    decreases events.len(),
{
    if events.len() == 0 {
        assert(open_slots(state).add(brought_by_all(events)) =~= open_slots(
            run(state, events).0,
        ).add(resolved(run(state, events).1)));
    } else {
        let before = run(state, events.drop_last());
        let last = step(before.0, events.last());
        lemma_run_slots_conserved(state, events.drop_last());
        lemma_slots_conserved(before.0, events.last());
        lemma_resolved_concat(before.1, last.1);
        let start = open_slots(state).add(brought_by_all(events.drop_last()));
        let middle = open_slots(before.0).add(resolved(before.1));
        let entering = open_slots(before.0).add(brought(events.last()));
        let leaving = open_slots(last.0).add(resolved(last.1));
        assert(start == middle);
        assert(entering == leaving);
        assert forall|slot: SlotId|
            open_slots(state).add(brought_by_all(events)).count(slot) == open_slots(last.0).add(
                resolved(before.1 + last.1),
            ).count(slot) by {
            assert(start.count(slot) == middle.count(slot));
            assert(entering.count(slot) == leaving.count(slot));
        }
        assert(open_slots(state).add(brought_by_all(events)) =~= open_slots(last.0).add(
            resolved(before.1 + last.1),
        ));
    }
    if run(state, events).0.phase == LoopPhase::Terminated {
        assert(open_slots(run(state, events).0) =~= Multiset::<SlotId>::empty());
        assert(resolved(run(state, events).1) =~= open_slots(state).add(brought_by_all(events)));
    }
}

/// The log entries of a worker are handed on in the order in which the
/// worker sent them, each as it came and under the runtime of the loop, and
/// the loop stays as it was.
pub proof fn lemma_logs_relayed_in_order(state: LoopState, entries: Seq<LogEntryView>)
    requires
        state.phase != LoopPhase::Terminated,
    ensures
        run(state, log_events(entries)) == (state, forwards(state.runtime_id, entries)),
    decreases entries.len(),
{
    if entries.len() == 0 {
        assert(forwards(state.runtime_id, entries) =~= Seq::<LoopEffectView>::empty());
    } else {
        lemma_logs_relayed_in_order(state, entries.drop_last());
        assert(log_events(entries).drop_last() =~= log_events(entries.drop_last()));
        assert(log_events(entries).last() == LoopEventView::Message(
            RuntimeToMainView::Log(entries.last()),
        ));
        assert(forwards(state.runtime_id, entries) =~= forwards(
            state.runtime_id,
            entries.drop_last(),
        ) + seq![LoopEffectView::Forward { runtime_id: state.runtime_id, entry: entries.last() }]);
    }
}

} // verus!
