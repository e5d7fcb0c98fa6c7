//! The registry of runtimes: identifiers, reserved ports and the state of each
//! runtime's life, from declared over running to stopped.

use crate::error::{ErrorView, SupervisorError};
use crate::json::JsonValue;
use crate::ts::config::ZenohConfigJson;
use crate::{RuntimeId, BASE_PORT};
use std::collections::{HashMap, HashSet};
use vstd::prelude::*;
use vstd::std_specs::iter::IteratorSpec;

verus! {

broadcast use vstd::std_specs::hash::group_hash_axioms;

/// Where a runtime stands in its life.
#[derive(Debug, Clone, Copy, PartialEq, Eq, Structural)]
pub enum Lifecycle {
    /// Configuration and port are reserved, nothing runs.
    Declared,
    /// A worker runs the runtime.
    Running,
    /// The worker is gone and the port is free again; the record stays for
    /// inspection until it is cleaned up.
    Stopped,
}

/// What the registry knows of one runtime.
#[derive(Debug, PartialEq)]
pub struct RuntimeRecord {
    /// The identity that the runtime reported when it started.
    pub zenoh_id: Option<String>,
    /// The configuration that the runtime was declared with.
    pub sandbox_config: ZenohConfigJson,
    /// Where the runtime stands in its life.
    pub lifecycle: Lifecycle,
    /// The port reserved for the runtime's remote API.
    pub allocated_port: u16,
}

/// What a record holds.
pub struct RecordView {
    pub zenoh_id: Option<Seq<char>>,
    pub config: JsonValue,
    pub lifecycle: Lifecycle,
    pub port: u16,
}

impl View for RuntimeRecord {
    type V = RecordView;

    open spec fn view(&self) -> RecordView {
        RecordView {
            zenoh_id: match self.zenoh_id {
                Some(id) => Some(id@),
                None => None,
            },
            config: self.sandbox_config@,
            lifecycle: self.lifecycle,
            port: self.allocated_port,
        }
    }
}

impl RecordView {
    /// A record holds its port until the runtime is stopped.
    pub open spec fn live(self) -> bool {
        self.lifecycle != Lifecycle::Stopped
    }
}

/// The state of a registry.
pub struct RegistryView {
    /// The record of every registered runtime.
    pub records: Map<RuntimeId, RecordView>,
    /// The identifier that the next declared runtime gets.
    pub next_id: RuntimeId,
    /// The ports that are reserved.
    pub ports: Set<u16>,
}

impl RegistryView {
    /// The state of a registry that nothing was declared in.
    pub open spec fn empty() -> RegistryView {
        RegistryView { records: Map::empty(), next_id: 0, ports: Set::empty() }
    }

    /// Whether a runtime is registered and holds its port.
    pub open spec fn holds_port(self, id: RuntimeId) -> bool {
        self.records.contains_key(id) && self.records[id].live()
    }

    /// The invariant of a registry: identifiers below the next one, the port of
    /// every runtime that is not stopped reserved and taken from the pool, and
    /// no two such runtimes on one port.
    pub open spec fn wf(self) -> bool {
        &&& forall|id: RuntimeId| #[trigger] self.records.contains_key(id) ==> id < self.next_id
        &&& forall|id: RuntimeId| #[trigger]
            self.holds_port(id) ==> self.ports.contains(self.records[id].port)
                && self.records[id].port >= BASE_PORT
        &&& forall|a: RuntimeId, b: RuntimeId|
            #[trigger] self.holds_port(a) && #[trigger] self.holds_port(b) && a != b
                ==> self.records[a].port != self.records[b].port
    }

    /// The lowest port from `from` upwards that is not reserved.
    pub open spec fn first_free_from(self, from: int) -> Option<u16>
        decreases 0x1_0000 - from,
    {
        if from < 0 || from > u16::MAX {
            None
        } else if !self.ports.contains(from as u16) {
            Some(from as u16)
        } else {
            self.first_free_from(from + 1)
        }
    }

    /// The port that the next allocation hands out: the lowest port of the pool
    /// that is not reserved.
    pub open spec fn first_free(self) -> Option<u16> {
        self.first_free_from(BASE_PORT as int)
    }

    /// The registry with one more port reserved.
    pub open spec fn reserve(self, port: u16) -> RegistryView {
        RegistryView { ports: self.ports.insert(port), ..self }
    }

    /// Whether a runtime that is not stopped holds a port.
    pub open spec fn port_in_use(self, port: u16) -> bool {
        exists|id: RuntimeId| #[trigger] self.holds_port(id) && self.records[id].port == port
    }

    /// The registry with a port given back, unless a runtime holds it.
    pub open spec fn release(self, port: u16) -> RegistryView {
        if self.port_in_use(port) {
            self
        } else {
            RegistryView { ports: self.ports.remove(port), ..self }
        }
    }

    /// Declaring a runtime: the next identifier and the lowest free port go to
    /// a new record. Nothing changes where no port or no identifier is left.
    pub open spec fn declare(self, config: JsonValue) -> (RegistryView, Result<RuntimeId, ErrorView>) {
        if self.next_id == u32::MAX {
            (self, Err(ErrorView::IdSpaceExhausted))
        } else {
            match self.first_free() {
                None => (self, Err(ErrorView::PortPoolExhausted)),
                Some(port) => (
                    RegistryView {
                        records: self.records.insert(
                            self.next_id,
                            RecordView {
                                zenoh_id: None,
                                config,
                                lifecycle: Lifecycle::Declared,
                                port,
                            },
                        ),
                        next_id: (self.next_id + 1) as RuntimeId,
                        ports: self.ports.insert(port),
                    },
                    Ok(self.next_id),
                ),
            }
        }
    }

    /// What a start of a runtime works with: its configuration and its port.
    /// Only a declared runtime can start.
    pub open spec fn start_plan(self, id: RuntimeId) -> Result<(JsonValue, u16), ErrorView> {
        if !self.records.contains_key(id) {
            Err(ErrorView::WorkerNotFound(id))
        } else if self.records[id].lifecycle != Lifecycle::Declared {
            Err(ErrorView::NotDeclared(id))
        } else {
            Ok((self.records[id].config, self.records[id].port))
        }
    }

    /// The end of a successful start: the runtime runs under the identity it
    /// reported.
    pub open spec fn complete_start(self, id: RuntimeId, zenoh_id: Seq<char>) -> (
        RegistryView,
        Result<(), ErrorView>,
    ) {
        match self.start_plan(id) {
            Err(error) => (self, Err(error)),
            Ok(_) => (
                RegistryView {
                    records: self.records.insert(
                        id,
                        RecordView {
                            zenoh_id: Some(zenoh_id),
                            lifecycle: Lifecycle::Running,
                            ..self.records[id]
                        },
                    ),
                    ..self
                },
                Ok(()),
            ),
        }
    }

    /// Stopping a runtime: its record stays, marked as stopped, and its port is
    /// free again. The result is where the runtime stood before; stopping a
    /// stopped runtime changes nothing.
    pub open spec fn stop(self, id: RuntimeId) -> (RegistryView, Result<Lifecycle, ErrorView>) {
        if !self.records.contains_key(id) {
            (self, Err(ErrorView::WorkerNotFound(id)))
        } else if self.records[id].lifecycle == Lifecycle::Stopped {
            (self, Ok(Lifecycle::Stopped))
        } else {
            (
                RegistryView {
                    records: self.records.insert(
                        id,
                        RecordView { lifecycle: Lifecycle::Stopped, ..self.records[id] },
                    ),
                    ports: self.ports.remove(self.records[id].port),
                    ..self
                },
                Ok(self.records[id].lifecycle),
            )
        }
    }

    /// Removing a runtime's record; a port that it still holds is given back.
    pub open spec fn cleanup(self, id: RuntimeId) -> RegistryView {
        if self.holds_port(id) {
            RegistryView {
                records: self.records.remove(id),
                ports: self.ports.remove(self.records[id].port),
                ..self
            }
        } else {
            RegistryView { records: self.records.remove(id), ..self }
        }
    }

    /// The configuration that a runtime was declared with.
    pub open spec fn declared_config(self, id: RuntimeId) -> Result<JsonValue, ErrorView> {
        if self.records.contains_key(id) {
            Ok(self.records[id].config)
        } else {
            Err(ErrorView::WorkerNotFound(id))
        }
    }

    /// Whether a request can go to a runtime's worker: the runtime must run.
    pub open spec fn live_target(self, id: RuntimeId) -> Result<(), ErrorView> {
        if !self.records.contains_key(id) {
            Err(ErrorView::WorkerNotFound(id))
        } else if self.records[id].lifecycle != Lifecycle::Running {
            Err(ErrorView::NotRunning(id))
        } else {
            Ok(())
        }
    }
}

/// The search for a free port finds the lowest one at or above its start, and
/// finds none only where every port from there on is reserved.
pub proof fn lemma_first_free_from(state: RegistryView, from: int)
    requires
        0 <= from <= 0x1_0000,
    ensures
        match state.first_free_from(from) {
            Some(port) => {
                &&& from <= port
                &&& !state.ports.contains(port)
                &&& forall|q: u16| from <= q < port ==> state.ports.contains(q)
            },
            None => forall|q: u16| from <= q ==> state.ports.contains(q),
        },
    decreases 0x1_0000 - from,
{
    if from <= u16::MAX && state.ports.contains(from as u16) {
        lemma_first_free_from(state, from + 1);
    }
}

/// The error of a result, taken by what it holds.
pub open spec fn result_view<T>(r: Result<T, SupervisorError>) -> Result<T, ErrorView> {
    match r {
        Ok(value) => Ok(value),
        Err(error) => Err(error@),
    }
}

/// Declaring a runtime keeps the registry valid.
pub proof fn lemma_declare_wf(state: RegistryView, config: JsonValue)
    requires
        state.wf(),
    ensures
        state.declare(config).0.wf(),
{
    let after = state.declare(config).0;
    if state.declare(config).1 is Ok {
        let id = state.next_id;
        let port = state.first_free()->Some_0;
        lemma_first_free_from(state, BASE_PORT as int);
        assert forall|other: RuntimeId| #[trigger] after.holds_port(other) implies after.ports.contains(after.records[other].port) && after.records[other].port >= BASE_PORT by {
            if other != id {
                assert(state.holds_port(other));
            }
        }
        assert forall|a: RuntimeId, b: RuntimeId|
            #[trigger] after.holds_port(a) && #[trigger] after.holds_port(b) && a != b implies after.records[a].port
            != after.records[b].port by {
            if a != id {
                assert(state.holds_port(a));
            }
            if b != id {
                assert(state.holds_port(b));
            }
        }
    }
}

/// Completing a start keeps the registry valid.
pub proof fn lemma_complete_start_wf(state: RegistryView, id: RuntimeId, zenoh_id: Seq<char>)
    requires
        state.wf(),
    ensures
        state.complete_start(id, zenoh_id).0.wf(),
{
    let after = state.complete_start(id, zenoh_id).0;
    if state.start_plan(id) is Ok {
        assert(state.holds_port(id));
        assert forall|other: RuntimeId| #[trigger] after.holds_port(other) implies after.ports.contains(after.records[other].port) && after.records[other].port >= BASE_PORT by {
            assert(state.holds_port(other));
        }
        assert forall|a: RuntimeId, b: RuntimeId|
            #[trigger] after.holds_port(a) && #[trigger] after.holds_port(b) && a != b implies after.records[a].port
            != after.records[b].port by {
            assert(state.holds_port(a) && state.holds_port(b));
        }
    }
}

/// Stopping a runtime keeps the registry valid.
pub proof fn lemma_stop_wf(state: RegistryView, id: RuntimeId)
    requires
        state.wf(),
    ensures
        state.stop(id).0.wf(),
{
    let after = state.stop(id).0;
    if state.holds_port(id) {
        assert forall|other: RuntimeId| #[trigger] after.holds_port(other) implies after.ports.contains(after.records[other].port) && after.records[other].port >= BASE_PORT by {
            assert(state.holds_port(other));
        }
        assert forall|a: RuntimeId, b: RuntimeId|
            #[trigger] after.holds_port(a) && #[trigger] after.holds_port(b) && a != b implies after.records[a].port
            != after.records[b].port by {
            assert(state.holds_port(a) && state.holds_port(b));
        }
    }
}

/// Removing a record keeps the registry valid.
pub proof fn lemma_cleanup_wf(state: RegistryView, id: RuntimeId)
    requires
        state.wf(),
    ensures
        state.cleanup(id).wf(),
{
    let after = state.cleanup(id);
    assert forall|other: RuntimeId| #[trigger] after.records.contains_key(other) implies other
        < after.next_id by {
        assert(state.records.contains_key(other));
    }
    assert forall|other: RuntimeId| #[trigger] after.holds_port(other) implies after.ports.contains(after.records[other].port) && after.records[other].port >= BASE_PORT by {
        assert(state.holds_port(other));
        if state.holds_port(id) {
            assert(state.holds_port(id) && other != id);
        }
    }
    assert forall|a: RuntimeId, b: RuntimeId|
        #[trigger] after.holds_port(a) && #[trigger] after.holds_port(b) && a != b implies after.records[a].port
        != after.records[b].port by {
        assert(state.holds_port(a) && state.holds_port(b));
    }
}

/// A registry with the same records stays valid when ports are added and the
/// next identifier grows.
pub proof fn lemma_wf_grows(before: RegistryView, after: RegistryView)
    requires
        before.wf(),
        after.records == before.records,
        before.ports.subset_of(after.ports),
        before.next_id <= after.next_id,
    ensures
        after.wf(),
{
    assert forall|id: RuntimeId| #[trigger] after.records.contains_key(id) implies id
        < after.next_id by {
        assert(before.records.contains_key(id));
    }
    assert forall|id: RuntimeId| #[trigger] after.holds_port(id) implies after.ports.contains(after.records[id].port) && after.records[id].port >= BASE_PORT by {
        assert(before.holds_port(id));
    }
    assert forall|a: RuntimeId, b: RuntimeId|
        #[trigger] after.holds_port(a) && #[trigger] after.holds_port(b) && a != b implies after.records[a].port
        != after.records[b].port by {
        assert(before.holds_port(a) && before.holds_port(b));
    }
}

/// Giving a port back keeps the registry valid.
pub proof fn lemma_release_wf(state: RegistryView, port: u16)
    requires
        state.wf(),
    ensures
        state.release(port).wf(),
{
    let after = state.release(port);
    if !state.port_in_use(port) {
        assert forall|id: RuntimeId| #[trigger] after.records.contains_key(id) implies id
            < after.next_id by {
            assert(state.records.contains_key(id));
        }
        assert forall|id: RuntimeId| #[trigger] after.holds_port(id) implies after.ports.contains(after.records[id].port) && after.records[id].port >= BASE_PORT by {
            assert(state.holds_port(id));
        }
        assert forall|a: RuntimeId, b: RuntimeId|
            #[trigger] after.holds_port(a) && #[trigger] after.holds_port(b) && a != b implies after.records[a].port
            != after.records[b].port by {
            assert(state.holds_port(a) && state.holds_port(b));
        }
    }
}

/// Holds the records of all runtimes, the identifier of the next one and the
/// ports that are reserved.
pub struct ZenohRuntimes {
    runtimes: HashMap<RuntimeId, RuntimeRecord>,
    next_runtime_id: RuntimeId,
    port_tracker: HashSet<u16>,
    socket_dir: String,
    log_dir: String,
}

impl View for ZenohRuntimes {
    type V = RegistryView;

    closed spec fn view(&self) -> RegistryView {
        RegistryView {
            records: Map::new(
                |id: RuntimeId| self.runtimes@.contains_key(id),
                |id: RuntimeId| self.runtimes@[id]@,
            ),
            next_id: self.next_runtime_id,
            ports: self.port_tracker@,
        }
    }
}

impl ZenohRuntimes {
    /// The invariant of the registry, which every operation keeps.
    pub open spec fn wf(&self) -> bool {
        self@.wf()
    }

    /// The directory of the sockets that workers connect to.
    pub closed spec fn socket_dir_view(&self) -> Seq<char> {
        self.socket_dir@
    }

    /// The directory of the files that keep what workers print.
    pub closed spec fn log_dir_view(&self) -> Seq<char> {
        self.log_dir@
    }

    /// A registry without runtimes, for workers whose sockets and output files
    /// lie in the two directories.
    pub fn new(socket_dir: String, log_dir: String) -> (r: Self)
        ensures
            r@ == RegistryView::empty(),
            r.wf(),
            r.socket_dir_view() == socket_dir@,
            r.log_dir_view() == log_dir@,
    {
        let r = ZenohRuntimes {
            runtimes: HashMap::new(),
            next_runtime_id: 0,
            port_tracker: HashSet::new(),
            socket_dir,
            log_dir,
        };
        assert(r@.records =~= Map::<RuntimeId, RecordView>::empty());
        r
    }

    /// The directory of the sockets that workers connect to.
    pub fn socket_dir(&self) -> (r: &String)
        ensures
            r@ == self.socket_dir_view(),
    {
        &self.socket_dir
    }

    /// The directory of the files that keep what workers print.
    pub fn log_dir(&self) -> (r: &String)
        ensures
            r@ == self.log_dir_view(),
    {
        &self.log_dir
    }

    /// Hands out the next identifier; none is left after `u32::MAX - 1`.
    pub fn allocate_runtime_id(&mut self) -> (r: Option<RuntimeId>)
        requires
            old(self).wf(),
        ensures
            final(self).wf(),
            match r {
                Some(id) => {
                    &&& id == old(self)@.next_id
                    &&& id < u32::MAX
                    &&& final(self)@ == RegistryView { next_id: (id + 1) as RuntimeId, ..old(self)@ }
                },
                None => old(self)@.next_id == u32::MAX && final(self)@ == old(self)@,
            },
            final(self).socket_dir_view() == old(self).socket_dir_view(),
            final(self).log_dir_view() == old(self).log_dir_view(),
    {
        if self.next_runtime_id == u32::MAX {
            return None;
        }
        let id = self.next_runtime_id;
        self.next_runtime_id = id + 1;
        proof {
            assert(self@.records == old(self)@.records);
            lemma_wf_grows(old(self)@, self@);
        }
        Some(id)
    }

    /// Reserves the lowest port of the pool that is free.
    pub fn allocate_port(&mut self) -> (r: Result<u16, SupervisorError>)
        requires
            old(self).wf(),
        ensures
            final(self).wf(),
            match r {
                Ok(port) => old(self)@.first_free() == Some(port) && final(self)@ == old(
                    self,
                )@.reserve(port),
                Err(error) => error@ == ErrorView::PortPoolExhausted && old(self)@.first_free()
                    is None && final(self)@ == old(self)@,
            },
            final(self).socket_dir_view() == old(self).socket_dir_view(),
            final(self).log_dir_view() == old(self).log_dir_view(),
    {
        let mut port: u16 = BASE_PORT;
        loop
            invariant
                BASE_PORT <= port,
                *self == *old(self),
                old(self).wf(),
                self@.first_free() == self@.first_free_from(port as int),
            decreases u16::MAX - port,
        {
            if !self.port_tracker.contains(&port) {
                self.port_tracker.insert(port);
                assert(self@.records == old(self)@.records);
                proof {
                    assert(self@ == old(self)@.reserve(port));
                    lemma_wf_grows(old(self)@, self@);
                }
                return Ok(port);
            }
            if port == u16::MAX {
                return Err(SupervisorError::PortPoolExhausted);
            }
            port = port + 1;
        }
    }

    /// Gives a port back to the pool, unless a runtime that is not stopped
    /// holds it: such a port is given back by stopping the runtime.
    pub fn release_port(&mut self, port: u16)
        requires
            old(self).wf(),
        ensures
            final(self).wf(),
            final(self)@ == old(self)@.release(port),
            final(self).socket_dir_view() == old(self).socket_dir_view(),
            final(self).log_dir_view() == old(self).log_dir_view(),
    {
        let ghost keys = vstd::std_specs::hash::spec_keys_iter(&self.runtimes).remaining().unref();
        proof {
            vstd::std_specs::hash::axiom_spec_keys_iter(&self.runtimes);
        }
        let mut in_use = false;
        for id in it: self.runtimes.keys()
            invariant
                it.seq().unref() == keys,
                keys.to_set() == self.runtimes@.dom(),
                *self == *old(self),
                in_use == exists|i: int|
                    0 <= i < it.index() && self@.holds_port(#[trigger] keys[i])
                        && self@.records[keys[i]].port == port,
        {
            let ghost at = it.index();
            assert(keys[at] == *id);
            assert(keys.to_set().contains(*id));
            match self.runtimes.get(id) {
                Some(record) => {
                    if record.lifecycle != Lifecycle::Stopped && record.allocated_port == port {
                        in_use = true;
                    }
                },
                None => {},
            }
        }
        proof {
            if self@.port_in_use(port) {
                let id = choose|id: RuntimeId| #[trigger]
                    self@.holds_port(id) && self@.records[id].port == port;
                assert(keys.to_set().contains(id));
                let i = choose|i: int| 0 <= i < keys.len() && keys[i] == id;
                assert(self@.holds_port(keys[i]));
            }
        }
        if !in_use {
            self.port_tracker.remove(&port);
            assert(self@.records == old(self)@.records);
            assert(self@ == old(self)@.release(port));
        }
        proof {
            lemma_release_wf(old(self)@, port);
        }
    }

    /// Declares a runtime with its configuration: reserves an identifier and
    /// the lowest free port, and keeps a record of it. Nothing runs yet.
    pub fn declare(&mut self, config: ZenohConfigJson) -> (r: Result<RuntimeId, SupervisorError>)
        requires
            old(self).wf(),
        ensures
            final(self).wf(),
            final(self)@ == old(self)@.declare(config@).0,
            result_view(r) == old(self)@.declare(config@).1,
            final(self).socket_dir_view() == old(self).socket_dir_view(),
            final(self).log_dir_view() == old(self).log_dir_view(),
    {
        proof {
            lemma_declare_wf(old(self)@, config@);
        }
        if self.next_runtime_id == u32::MAX {
            return Err(SupervisorError::IdSpaceExhausted);
        }
        let port = match self.allocate_port() {
            Ok(port) => port,
            Err(error) => {
                return Err(error);
            },
        };
        let id = self.next_runtime_id;
        self.next_runtime_id = id + 1;
        let record = RuntimeRecord {
            zenoh_id: None,
            sandbox_config: config,
            lifecycle: Lifecycle::Declared,
            allocated_port: port,
        };
        self.runtimes.insert(id, record);
        assert(self@.records =~= old(self)@.declare(config@).0.records);
        Ok(id)
    }

    /// What a start of a runtime works with: a copy of its configuration, and
    /// its port. Only a declared runtime can start.
    pub fn start_plan(&self, id: RuntimeId) -> (r: Result<(ZenohConfigJson, u16), SupervisorError>)
        ensures
            match r {
                Ok((config, port)) => self@.start_plan(id) == Ok::<(JsonValue, u16), ErrorView>(
                    (config@, port),
                ),
                Err(error) => self@.start_plan(id) == Err::<(JsonValue, u16), ErrorView>(error@),
            },
    {
        match self.runtimes.get(&id) {
            None => Err(SupervisorError::WorkerNotFound(id)),
            Some(record) => {
                if record.lifecycle != Lifecycle::Declared {
                    Err(SupervisorError::NotDeclared(id))
                } else {
                    Ok((record.sandbox_config.clone(), record.allocated_port))
                }
            },
        }
    }

    /// Ends a successful start: the runtime runs from now on, under the
    /// identity it reported. A runtime that is gone, or that is not waiting to
    /// start, is refused and the caller has to take its worker down.
    pub fn complete_start(&mut self, id: RuntimeId, zenoh_id: String) -> (r: Result<
        (),
        SupervisorError,
    >)
        requires
            old(self).wf(),
        ensures
            final(self).wf(),
            final(self)@ == old(self)@.complete_start(id, zenoh_id@).0,
            result_view(r) == old(self)@.complete_start(id, zenoh_id@).1,
            final(self).socket_dir_view() == old(self).socket_dir_view(),
            final(self).log_dir_view() == old(self).log_dir_view(),
    {
        proof {
            lemma_complete_start_wf(old(self)@, id, zenoh_id@);
        }
        match self.runtimes.remove(&id) {
            None => {
                assert(self.runtimes@ =~= old(self).runtimes@);
                Err(SupervisorError::WorkerNotFound(id))
            },
            Some(record) => {
                if record.lifecycle != Lifecycle::Declared {
                    self.runtimes.insert(id, record);
                    assert(self.runtimes@ =~= old(self).runtimes@);
                    Err(SupervisorError::NotDeclared(id))
                } else {
                    let running = RuntimeRecord {
                        zenoh_id: Some(zenoh_id),
                        sandbox_config: record.sandbox_config,
                        lifecycle: Lifecycle::Running,
                        allocated_port: record.allocated_port,
                    };
                    self.runtimes.insert(id, running);
                    assert(self@.records =~= old(self)@.complete_start(id, zenoh_id@).0.records);
                    Ok(())
                }
            },
        }
    }

    /// Where a runtime stands in its life.
    pub fn lifecycle(&self, id: RuntimeId) -> (r: Result<Lifecycle, SupervisorError>)
        ensures
            match r {
                Ok(lifecycle) => self@.records.contains_key(id) && self@.records[id].lifecycle
                    == lifecycle,
                Err(error) => !self@.records.contains_key(id) && error@
                    == ErrorView::WorkerNotFound(id),
            },
    {
        match self.runtimes.get(&id) {
            None => Err(SupervisorError::WorkerNotFound(id)),
            Some(record) => Ok(record.lifecycle),
        }
    }

    /// Marks a runtime as stopped and gives its port back. The result is where
    /// the runtime stood before: a worker has to be taken down only where it
    /// ran. Stopping a stopped runtime changes nothing.
    pub fn stop(&mut self, id: RuntimeId) -> (r: Result<Lifecycle, SupervisorError>)
        requires
            old(self).wf(),
        ensures
            final(self).wf(),
            final(self)@ == old(self)@.stop(id).0,
            result_view(r) == old(self)@.stop(id).1,
            final(self).socket_dir_view() == old(self).socket_dir_view(),
            final(self).log_dir_view() == old(self).log_dir_view(),
    {
        proof {
            lemma_stop_wf(old(self)@, id);
        }
        match self.runtimes.remove(&id) {
            None => {
                assert(self.runtimes@ =~= old(self).runtimes@);
                Err(SupervisorError::WorkerNotFound(id))
            },
            Some(record) => {
                let before = record.lifecycle;
                if before == Lifecycle::Stopped {
                    self.runtimes.insert(id, record);
                    assert(self.runtimes@ =~= old(self).runtimes@);
                    Ok(before)
                } else {
                    let port = record.allocated_port;
                    let stopped = RuntimeRecord {
                        zenoh_id: record.zenoh_id,
                        sandbox_config: record.sandbox_config,
                        lifecycle: Lifecycle::Stopped,
                        allocated_port: port,
                    };
                    self.runtimes.insert(id, stopped);
                    self.port_tracker.remove(&port);
                    assert(self@.records =~= old(self)@.stop(id).0.records);
                    Ok(before)
                }
            },
        }
    }

    /// Removes the record of a runtime, and gives back a port that it still
    /// holds. The result is where the runtime stood, if it was registered.
    pub fn cleanup(&mut self, id: RuntimeId) -> (r: Option<Lifecycle>)
        requires
            old(self).wf(),
        ensures
            final(self).wf(),
            final(self)@ == old(self)@.cleanup(id),
            r == if old(self)@.records.contains_key(id) {
                Some(old(self)@.records[id].lifecycle)
            } else {
                None
            },
            final(self).socket_dir_view() == old(self).socket_dir_view(),
            final(self).log_dir_view() == old(self).log_dir_view(),
    {
        proof {
            lemma_cleanup_wf(old(self)@, id);
        }
        match self.runtimes.remove(&id) {
            None => {
                assert(self@.records =~= old(self)@.cleanup(id).records);
                None
            },
            Some(record) => {
                if record.lifecycle != Lifecycle::Stopped {
                    self.port_tracker.remove(&record.allocated_port);
                }
                assert(self@.records =~= old(self)@.cleanup(id).records);
                Some(record.lifecycle)
            },
        }
    }

    /// The identifiers of all registered runtimes, each once, in no
    /// particular order.
    pub fn list(&self) -> (r: Vec<RuntimeId>)
        ensures
            r@.to_set() == self@.records.dom(),
            r@.no_duplicates(),
    {
        let mut out: Vec<RuntimeId> = Vec::new();
        let ghost refs = vstd::std_specs::hash::spec_keys_iter(&self.runtimes).remaining();
        let ghost keys = refs.unref();
        proof {
            vstd::std_specs::hash::axiom_spec_keys_iter(&self.runtimes);
        }
        for id in it: self.runtimes.keys()
            invariant
                it.seq().unref() == keys,
                out@ == keys.take(it.index() as int),
        {
            assert(keys.take(it.index() + 1) =~= keys.take(it.index() as int).push(*id));
            out.push(*id);
        }
        assert(out@ =~= keys);
        assert(keys.no_duplicates()) by {
            assert forall|i: int, j: int|
                0 <= i < keys.len() && 0 <= j < keys.len() && i != j implies keys[i]
                != keys[j] by {
                assert(refs[i] != refs[j]);
            }
        }
        assert(self@.records.dom() =~= self.runtimes@.dom());
        out
    }

    /// The configuration that a runtime was declared with.
    pub fn get_declared_config(&self, id: RuntimeId) -> (r: Result<ZenohConfigJson, SupervisorError>)
        ensures
            match r {
                Ok(config) => self@.declared_config(id) == Ok::<JsonValue, ErrorView>(config@),
                Err(error) => self@.declared_config(id) == Err::<JsonValue, ErrorView>(error@),
            },
    {
        match self.runtimes.get(&id) {
            None => Err(SupervisorError::WorkerNotFound(id)),
            Some(record) => Ok(record.sandbox_config.clone()),
        }
    }

    /// Whether a request can go to a runtime's worker: the runtime must be
    /// registered and running.
    pub fn live_target(&self, id: RuntimeId) -> (r: Result<(), SupervisorError>)
        ensures
            result_view(r) == self@.live_target(id),
    {
        match self.runtimes.get(&id) {
            None => Err(SupervisorError::WorkerNotFound(id)),
            Some(record) => {
                if record.lifecycle != Lifecycle::Running {
                    Err(SupervisorError::NotRunning(id))
                } else {
                    Ok(())
                }
            },
        }
    }
}

} // verus!
