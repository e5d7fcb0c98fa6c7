//! What holds of a registry whatever is done to it, in whatever order.

use crate::error::ErrorView;
use crate::json::JsonValue;
use crate::registry::{
    lemma_cleanup_wf, lemma_complete_start_wf, lemma_declare_wf, lemma_first_free_from,
    lemma_release_wf, lemma_stop_wf, lemma_wf_grows, Lifecycle, RegistryView,
};
use crate::{RuntimeId, BASE_PORT};
use vstd::prelude::*;

verus! {

/// One operation on a registry.
pub enum RegistryOp {
    /// A runtime is declared with a configuration.
    Declare(JsonValue),
    /// A start ends well, the runtime reporting an identity.
    CompleteStart(RuntimeId, Seq<char>),
    /// A runtime is stopped.
    Stop(RuntimeId),
    /// A runtime's record is removed.
    Cleanup(RuntimeId),
    /// A port is reserved for no runtime.
    AllocatePort,
    /// A port is given back.
    ReleasePort(u16),
}

/// The registry after one operation.
pub open spec fn apply(state: RegistryView, op: RegistryOp) -> RegistryView {
    match op {
        RegistryOp::Declare(config) => state.declare(config).0,
        RegistryOp::CompleteStart(id, zenoh_id) => state.complete_start(id, zenoh_id).0,
        RegistryOp::Stop(id) => state.stop(id).0,
        RegistryOp::Cleanup(id) => state.cleanup(id),
        RegistryOp::AllocatePort => match state.first_free() {
            Some(port) => state.reserve(port),
            None => state,
        },
        RegistryOp::ReleasePort(port) => state.release(port),
    }
}

/// The identifier that an operation hands out: that of a declaration which
/// succeeds.
pub open spec fn issued(state: RegistryView, op: RegistryOp) -> Option<RuntimeId> {
    match op {
        RegistryOp::Declare(config) => match state.declare(config).1 {
            Ok(id) => Some(id),
            Err(_) => None,
        },
        _ => None,
    }
}

/// The registry after a sequence of operations, the first one first.
pub open spec fn run(state: RegistryView, ops: Seq<RegistryOp>) -> RegistryView
    decreases ops.len(),
{
    if ops.len() == 0 {
        state
    } else {
        apply(run(state, ops.drop_last()), ops.last())
    }
}

/// The identifier that the operation at a position of a sequence hands out.
pub open spec fn issued_at(state: RegistryView, ops: Seq<RegistryOp>, at: int) -> Option<RuntimeId>
    recommends
        0 <= at < ops.len(),
{
    issued(run(state, ops.take(at)), ops[at])
}

/// Every operation keeps the registry valid.
pub proof fn lemma_apply_wf(state: RegistryView, op: RegistryOp)
    requires
        state.wf(),
    ensures
        apply(state, op).wf(),
{
    match op {
        RegistryOp::Declare(config) => lemma_declare_wf(state, config),
        RegistryOp::CompleteStart(id, zenoh_id) => lemma_complete_start_wf(state, id, zenoh_id),
        RegistryOp::Stop(id) => lemma_stop_wf(state, id),
        RegistryOp::Cleanup(id) => lemma_cleanup_wf(state, id),
        RegistryOp::AllocatePort => {
            if state.first_free() is Some {
                lemma_wf_grows(state, apply(state, op));
            }
        },
        RegistryOp::ReleasePort(port) => lemma_release_wf(state, port),
    }
}

/// No operation lowers the identifier that the next declaration hands out,
/// and a declaration that succeeds hands out the one that was next.
pub proof fn lemma_apply_next_id(state: RegistryView, op: RegistryOp)
    ensures
        state.next_id <= apply(state, op).next_id,
        issued(state, op) matches Some(id) ==> id == state.next_id && id < apply(
            state,
            op,
        ).next_id,
{
}

/// Whatever is done to a valid registry, it stays valid: at every moment the
/// runtimes that are not stopped hold reserved ports, and no two of them hold
/// the same port.
pub proof fn lemma_run_wf(state: RegistryView, ops: Seq<RegistryOp>)
    requires
        state.wf(),
    ensures
        run(state, ops).wf(),
    decreases ops.len(),
{
    if ops.len() > 0 {
        lemma_run_wf(state, ops.drop_last());
        lemma_apply_wf(run(state, ops.drop_last()), ops.last());
    }
}

/// Two runtimes that are registered and not stopped never hold the same port,
/// whatever was done to the registry before.
pub proof fn lemma_ports_distinct(
    state: RegistryView,
    ops: Seq<RegistryOp>,
    a: RuntimeId,
    b: RuntimeId,
)
    requires
        state.wf(),
        a != b,
        run(state, ops).holds_port(a),
        run(state, ops).holds_port(b),
    ensures
        run(state, ops).records[a].port != run(state, ops).records[b].port,
        run(state, ops).ports.contains(run(state, ops).records[a].port),
        run(state, ops).ports.contains(run(state, ops).records[b].port),
{
    lemma_run_wf(state, ops);
}

/// The identifier that the next declaration hands out never goes down.
pub proof fn lemma_run_next_id(state: RegistryView, ops: Seq<RegistryOp>, at: int)
    requires
        0 <= at <= ops.len(),
    ensures
        state.next_id <= run(state, ops.take(at)).next_id,
        run(state, ops.take(at)).next_id <= run(state, ops).next_id,
    decreases ops.len() - at,
{
    lemma_run_from_start(state, ops.take(at));
    if at == ops.len() {
        assert(ops.take(at) == ops);
    } else {
        lemma_run_next_id(state, ops, at + 1);
        assert(ops.take(at + 1).drop_last() == ops.take(at));
        lemma_apply_next_id(run(state, ops.take(at)), ops[at]);
    }
}

/// The identifier that the next declaration hands out is never lower than at
/// the start.
pub proof fn lemma_run_from_start(state: RegistryView, ops: Seq<RegistryOp>)
    ensures
        state.next_id <= run(state, ops).next_id,
    decreases ops.len(),
{
    if ops.len() > 0 {
        lemma_run_from_start(state, ops.drop_last());
        lemma_apply_next_id(run(state, ops.drop_last()), ops.last());
    }
}

/// The identifiers that the declarations of a sequence of operations hand out
/// are pairwise distinct, and none of them is one that was registered before
/// the sequence began.
pub proof fn lemma_identifiers_distinct(
    state: RegistryView,
    ops: Seq<RegistryOp>,
    first: int,
    second: int,
)
    requires
        state.wf(),
        0 <= first < second < ops.len(),
        issued_at(state, ops, first) is Some,
        issued_at(state, ops, second) is Some,
    ensures
        issued_at(state, ops, first) != issued_at(state, ops, second),
        !state.records.contains_key(issued_at(state, ops, first)->Some_0),
        !state.records.contains_key(issued_at(state, ops, second)->Some_0),
{
    let before_first = run(state, ops.take(first));
    let after_first = run(state, ops.take(first + 1));
    let before_second = run(state, ops.take(second));
    lemma_apply_next_id(before_first, ops[first]);
    lemma_apply_next_id(before_second, ops[second]);
    assert(ops.take(first + 1).drop_last() == ops.take(first));
    assert(ops.take(first + 1).last() == ops[first]);
    assert(after_first == apply(before_first, ops[first]));
    // from the first declaration to the second the next identifier only grows
    let middle = ops.take(second);
    assert(middle.take(first + 1) == ops.take(first + 1));
    lemma_run_next_id(state, middle, first + 1);
    lemma_run_from_start(state, ops.take(first));
    lemma_run_from_start(state, ops.take(second));
}

/// An identifier that a declaration hands out is not that of any runtime
/// registered at that moment: no identifier is used again while its record
/// stays.
pub proof fn lemma_identifier_fresh(state: RegistryView, config: JsonValue)
    requires
        state.wf(),
    ensures
        state.declare(config).1 matches Ok(id) ==> {
            &&& !state.records.contains_key(id)
            &&& state.declare(config).0.records.contains_key(id)
            &&& state.declare(config).0.records[id].config == config
            &&& state.declare(config).0.records[id].lifecycle == Lifecycle::Declared
            &&& forall|other: RuntimeId| #[trigger]
                state.records.contains_key(other) ==> state.declare(config).0.records[other]
                    == state.records[other]
        },
{
    if state.declare(config).1 is Ok {
        let id = state.next_id;
        if state.records.contains_key(id) {
            assert(id < state.next_id);
        }
    }
}

/// The port that a declaration reserves was free, and is from then on the
/// port of the new runtime alone.
pub proof fn lemma_declared_port_fresh(state: RegistryView, config: JsonValue, other: RuntimeId)
    requires
        state.wf(),
        state.declare(config).1 is Ok,
        state.holds_port(other),
    ensures
        !state.ports.contains(state.declare(config).0.records[state.next_id].port),
        state.declare(config).0.records[state.next_id].port != state.records[other].port,
        state.declare(config).0.records[state.next_id].port >= BASE_PORT,
{
    lemma_first_free_from(state, BASE_PORT as int);
}

/// After a runtime is stopped its port is reserved no more, and the pool can
/// hand it out again: the next allocation gets that port or a lower one.
pub proof fn lemma_stop_frees_port(state: RegistryView, id: RuntimeId)
    requires
        state.wf(),
        state.holds_port(id),
    ensures
        !state.stop(id).0.ports.contains(state.records[id].port),
        state.stop(id).0.first_free() matches Some(port) && port <= state.records[id].port,
{
    let after = state.stop(id).0;
    lemma_first_free_from(after, BASE_PORT as int);
}

/// A port that was given back and is the lowest free one goes to the next
/// runtime that is declared.
pub proof fn lemma_port_reused(state: RegistryView, id: RuntimeId, config: JsonValue)
    requires
        state.wf(),
        state.holds_port(id),
        state.next_id < u32::MAX,
        forall|q: u16| BASE_PORT <= q < state.records[id].port ==> state.ports.contains(q),
    ensures
        state.stop(id).0.declare(config).1 == Ok::<RuntimeId, ErrorView>(state.next_id),
        state.stop(id).0.declare(config).0.records[state.next_id].port == state.records[id].port,
{
    let after = state.stop(id).0;
    lemma_first_free_from(after, BASE_PORT as int);
    let port = state.records[id].port;
    match after.first_free() {
        Some(found) => {
            if found < port {
                assert(state.ports.contains(found));
            }
        },
        None => {
            assert(after.ports.contains(port));
        },
    }
}

/// A runtime that was declared and then started has the configuration it was
/// declared with.
pub proof fn lemma_config_round_trip(state: RegistryView, config: JsonValue, zenoh_id: Seq<char>)
    requires
        state.wf(),
        state.declare(config).1 is Ok,
    ensures
        ({
            let id = state.declare(config).1->Ok_0;
            let declared = state.declare(config).0;
            let started = declared.complete_start(id, zenoh_id);
            &&& declared.declared_config(id) == Ok::<JsonValue, ErrorView>(config)
            &&& declared.start_plan(id) is Ok
            &&& declared.start_plan(id)->Ok_0.0 == config
            &&& started.1 is Ok
            &&& started.0.declared_config(id) == Ok::<JsonValue, ErrorView>(config)
            &&& started.0.records[id].lifecycle == Lifecycle::Running
            &&& started.0.records[id].zenoh_id == Some(zenoh_id)
            &&& started.0.records[id].port == declared.records[id].port
        }),
{
}

/// An operation that fails changes nothing: a runtime whose start did not
/// complete stays as it was declared, with its port reserved.
pub proof fn lemma_failure_changes_nothing(
    state: RegistryView,
    config: JsonValue,
    id: RuntimeId,
    zenoh_id: Seq<char>,
)
    ensures
        state.declare(config).1 is Err ==> state.declare(config).0 == state,
        state.complete_start(id, zenoh_id).1 is Err ==> state.complete_start(id, zenoh_id).0
            == state,
        state.stop(id).1 is Err ==> state.stop(id).0 == state,
{
}

/// A record that was removed is known no more, and the other records are as
/// they were.
pub proof fn lemma_cleanup_forgets(state: RegistryView, id: RuntimeId, other: RuntimeId)
    ensures
        !state.cleanup(id).records.contains_key(id),
        other != id && state.records.contains_key(other) ==> state.cleanup(
            id,
        ).records.contains_key(other) && state.cleanup(id).records[other] == state.records[other],
        state.holds_port(id) ==> !state.cleanup(id).ports.contains(state.records[id].port),
{
}

/// Stopping a runtime twice is stopping it once: the second stop succeeds
/// and changes nothing.
pub proof fn lemma_stop_idempotent(state: RegistryView, id: RuntimeId)
    requires
        state.records.contains_key(id),
    ensures
        state.stop(id).1 is Ok,
        state.stop(id).0.stop(id).0 == state.stop(id).0,
        state.stop(id).0.stop(id).1 == Ok::<Lifecycle, ErrorView>(Lifecycle::Stopped),
{
}

/// Stopping a runtime that is not registered fails and changes nothing.
pub proof fn lemma_stop_unknown(state: RegistryView, id: RuntimeId)
    requires
        !state.records.contains_key(id),
    ensures
        state.stop(id).0 == state,
        state.stop(id).1 == Err::<Lifecycle, ErrorView>(ErrorView::WorkerNotFound(id)),
{
}

/// Stopping a runtime leaves every other record as it was, and keeps the
/// record of the runtime itself, with its configuration.
pub proof fn lemma_stop_keeps_records(state: RegistryView, id: RuntimeId, other: RuntimeId)
    requires
        state.records.contains_key(other),
    ensures
        state.stop(id).0.records.contains_key(other),
        state.stop(id).0.records[other].config == state.records[other].config,
        other != id ==> state.stop(id).0.records[other] == state.records[other],
{
}

} // verus!
