//! The gateway itself: the protocol registry, the connection table, the
//! sync ledger, the mesh registry and the operation counters, with one
//! operation per service endpoint. The service boundary hands these
//! operations plain values (sizes, durations, ids) and serializes what they
//! return.

use vstd::prelude::*;
use vstd::string::StringSliceAdditionalSpecFns;
use crate::connections::{ConnStatus, Connection, ConnectionTable};
use crate::errors::GatewayError;
use crate::mesh::{Mesh, Topology, build_mesh, mesh_edges_ok, mesh_wf};
use crate::protocol::ProtocolRegistry;
use crate::stats::{Stats, stats_le};
use crate::transform::{build_envelope, envelope_spec};

verus! {

/// One synchronization event, as the ledger keeps it. Sizes come from the
/// delta payload that was synchronized; the latency is the measured
/// wall-clock duration of the operation, in microseconds.
#[derive(Clone, Copy, PartialEq, Eq, Structural, Debug)]
pub struct SyncEvent {
    pub id: u64,
    pub connection_id: u64,
    pub objects_synced: u64,
    pub bytes_transferred: u64,
    pub latency_us: u64,
}

/// The result of one protocol transformation: the converted payload.
pub struct TransformRecord {
    pub id: u64,
    pub output: Vec<u8>,
}

/// A read-only snapshot of the counters, plus the count of tracked meshes.
#[derive(Clone, Copy, PartialEq, Eq, Structural, Debug)]
pub struct StatsSnapshot {
    pub total_connections: u64,
    pub total_syncs: u64,
    pub total_transforms: u64,
    pub bytes_relayed: u64,
    pub active_meshes: usize,
}

/// The health report. Uptime is reported exactly as the caller's monotone
/// clock reads it.
pub struct Health {
    pub status: String,
    pub version: String,
    pub uptime_secs: u64,
    pub total_ops: u64,
}

/// The protocol a connection takes when the request names none.
pub open spec fn default_protocol() -> Seq<char> {
    "sdf-stream"@
}

/// The region a connection lands in when the request names none.
pub open spec fn default_region() -> Seq<char> {
    "us-east-1"@
}

/// The fixed part of a connection's endpoint address; the region completes it.
pub open spec fn endpoint_prefix() -> Seq<char> {
    "wss://gateway.alice-platform.com/"@
}

/// The protocol a connect request resolves to.
pub open spec fn chosen_protocol(p: Option<String>) -> Seq<char> {
    match p {
        Some(s) => s@,
        None => default_protocol(),
    }
}

/// The region a connect request resolves to.
pub open spec fn chosen_region(r: Option<String>) -> Seq<char> {
    match r {
        Some(s) => s@,
        None => default_region(),
    }
}

/// The topology a mesh request resolves to.
pub open spec fn chosen_topology(t: Option<Topology>) -> Topology {
    match t {
        Some(x) => x,
        None => Topology::FullMesh,
    }
}

/// Total operations reported by health: connections plus syncs, saturating
/// at the counter's ceiling.
pub open spec fn total_ops_spec(s: Stats) -> u64 {
    if s.total_connections + s.total_syncs <= u64::MAX {
        (s.total_connections + s.total_syncs) as u64
    } else {
        u64::MAX
    }
}

/// The whole gateway state.
pub struct Gateway {
    registry: ProtocolRegistry,
    connections: ConnectionTable,
    syncs: Vec<SyncEvent>,
    meshes: Vec<Mesh>,
    next_sync_id: u64,
    next_mesh_id: u64,
    next_transform_id: u64,
    stats: Stats,
}

impl Gateway {
    pub closed spec fn spec_registry(self) -> ProtocolRegistry {
        self.registry
    }

    pub closed spec fn spec_connections(self) -> ConnectionTable {
        self.connections
    }

    pub closed spec fn spec_syncs(self) -> Seq<SyncEvent> {
        self.syncs@
    }

    pub closed spec fn spec_meshes(self) -> Seq<Mesh> {
        self.meshes@
    }

    pub closed spec fn spec_next_sync_id(self) -> u64 {
        self.next_sync_id
    }

    pub closed spec fn spec_next_mesh_id(self) -> u64 {
        self.next_mesh_id
    }

    pub closed spec fn spec_next_transform_id(self) -> u64 {
        self.next_transform_id
    }

    pub closed spec fn spec_stats(self) -> Stats {
        self.stats
    }

    /// The mesh ids in creation order.
    pub open spec fn mesh_ids(self) -> Seq<u64> {
        self.spec_meshes().map_values(|m: Mesh| m.id)
    }

    /// Gateway invariant: the connection table is well formed, and mesh ids,
    /// like connection ids, are all below the next to be issued and pairwise
    /// distinct.
    pub open spec fn wf(self) -> bool {
        &&& self.spec_connections().wf()
        &&& forall|i: int|
            0 <= i < self.mesh_ids().len() ==> self.mesh_ids()[i] < self.spec_next_mesh_id()
        &&& forall|i: int, j: int|
            0 <= i < j < self.mesh_ids().len() ==> self.mesh_ids()[i] != self.mesh_ids()[j]
    }

    /// A fresh gateway: the default protocol catalog, no connections, no
    /// sync events, no meshes, all counters zero.
    pub fn new() -> (g: Gateway)
        ensures
            g.wf(),
            g.spec_registry().names() =~= seq!["sdf-stream"@, "mqtt-bridge"@, "grpc-relay"@],
            g.spec_registry().spec_entries().len() == 3,
            g.spec_registry().spec_entries()[0].latency_us == 8000,
            g.spec_registry().spec_entries()[0].throughput_kbps == 100_000,
            g.spec_registry().spec_entries()[1].latency_us == 15_000,
            g.spec_registry().spec_entries()[1].throughput_kbps == 10_000,
            g.spec_registry().spec_entries()[2].latency_us == 5000,
            g.spec_registry().spec_entries()[2].throughput_kbps == 500_000,
            forall|i: int, j: int|
                0 <= i < j < g.spec_registry().names().len() ==> g.spec_registry().names()[i]
                    != g.spec_registry().names()[j],
            g.spec_connections().spec_conns().len() == 0,
            g.spec_connections().spec_next_id() == 0,
            g.spec_syncs().len() == 0,
            g.spec_meshes().len() == 0,
            g.spec_next_sync_id() == 0,
            g.spec_next_mesh_id() == 0,
            g.spec_next_transform_id() == 0,
            g.spec_stats() == (Stats {
                total_connections: 0,
                total_syncs: 0,
                total_transforms: 0,
                bytes_relayed: 0,
            }),
    {
        Gateway {
            registry: ProtocolRegistry::with_default_entries(),
            connections: ConnectionTable::new(),
            syncs: Vec::new(),
            meshes: Vec::new(),
            next_sync_id: 0,
            next_mesh_id: 0,
            next_transform_id: 0,
            stats: Stats::new(),
        }
    }

    /// The protocol catalog, for listing and lookup.
    pub fn protocols(&self) -> (r: &ProtocolRegistry)
        ensures
            *r == self.spec_registry(),
    {
        &self.registry
    }

    /// Opens a connection for `device_id`, with the given or default
    /// protocol and region, and returns the fresh connection id.
    ///
    /// Ids are issued sequentially rather than drawn at random, so their
    /// uniqueness within a process lifetime is a theorem
    /// (`lemma_connect_ids_unique`) instead of a statistical expectation;
    /// the service boundary renders them as text.
    ///
    /// Fails with `InvalidInput` exactly when `device_id` is empty, and
    /// with `UnsupportedProtocol` exactly when a protocol was named that
    /// the registry does not list; nothing changes on failure, and the
    /// connection counter moves only on success, by exactly one.
    pub fn connect(
        &mut self,
        device_id: String,
        protocol: Option<String>,
        region: Option<String>,
    ) -> (r: Result<u64, GatewayError>)
        requires
            old(self).wf(),
            old(self).spec_connections().spec_next_id() < u64::MAX,
            old(self).spec_stats().total_connections < u64::MAX,
        ensures
            final(self).wf(),
            r is Err <==> (device_id@.len() == 0 || !old(self).spec_registry().lists(
                chosen_protocol(protocol),
            )),
            device_id@.len() == 0 ==> r == Err::<u64, GatewayError>(GatewayError::InvalidInput),
            device_id@.len() > 0 && !old(self).spec_registry().lists(chosen_protocol(protocol))
                ==> r == Err::<u64, GatewayError>(GatewayError::UnsupportedProtocol),
            r is Err ==> *final(self) == *old(self),
            r matches Ok(id) ==> {
                &&& id == old(self).spec_connections().spec_next_id()
                &&& !old(self).spec_connections().contains_id(id)
                &&& final(self).spec_connections().contains_id(id)
                &&& final(self).spec_connections().spec_next_id() == id + 1
                &&& final(self).spec_connections().spec_conns().len() == old(self).spec_connections().spec_conns().len() + 1
                &&& forall|k: int|
                    0 <= k < old(self).spec_connections().spec_conns().len() ==> final(self).spec_connections().spec_conns()[k] == old(self).spec_connections().spec_conns()[k]
                &&& final(self).spec_connections().spec_conns().last().id == id
                &&& final(self).spec_connections().spec_conns().last().device_id@ == device_id@
                &&& final(self).spec_connections().spec_conns().last().protocol@
                    == chosen_protocol(protocol)
                &&& final(self).spec_connections().spec_conns().last().region@ == chosen_region(
                    region,
                )
                &&& final(self).spec_connections().spec_conns().last().endpoint@
                    == endpoint_prefix() + chosen_region(region)
                &&& final(self).spec_connections().spec_conns().last().status
                    == ConnStatus::Connected
                &&& final(self).spec_stats().total_connections == old(self).spec_stats().total_connections + 1
                &&& final(self).spec_stats().total_syncs == old(self).spec_stats().total_syncs
                &&& final(self).spec_stats().total_transforms == old(self).spec_stats().total_transforms
                &&& final(self).spec_stats().bytes_relayed == old(self).spec_stats().bytes_relayed
                &&& final(self).spec_syncs() == old(self).spec_syncs()
                &&& final(self).spec_meshes() == old(self).spec_meshes()
                &&& final(self).spec_registry() == old(self).spec_registry()
                &&& final(self).spec_next_sync_id() == old(self).spec_next_sync_id()
                &&& final(self).spec_next_mesh_id() == old(self).spec_next_mesh_id()
                &&& final(self).spec_next_transform_id() == old(self).spec_next_transform_id()
            },
            stats_le(old(self).spec_stats(), final(self).spec_stats()),
            old(self).spec_connections().spec_next_id() <= final(self).spec_connections().spec_next_id(),
    {
        let protocol_s = match protocol {
            Some(p) => p,
            None => String::from_str("sdf-stream"),
        };
        if device_id.as_str().is_empty() {
            return Err(GatewayError::InvalidInput);
        }
        if !self.registry.contains(protocol_s.as_str()) {
            return Err(GatewayError::UnsupportedProtocol);
        }
        let region_s = match region {
            Some(r) => r,
            None => String::from_str("us-east-1"),
        };
        let endpoint = String::from_str("wss://gateway.alice-platform.com/").concat(
            region_s.as_str(),
        );
        let id = self.connections.open(device_id, protocol_s, region_s, endpoint);
        self.stats.total_connections = self.stats.total_connections + 1;
        proof {
            lemma_wf_preserved_meshes(*old(self), *self);
        }
        Ok(id)
    }

    /// Looks a connection up by its id.
    pub fn get_connection(&self, id: u64) -> (r: Option<&Connection>)
        ensures
            r is Some <==> self.spec_connections().contains_id(id),
            r matches Some(c) ==> c.id == id && (exists|k: int|
                0 <= k < self.spec_connections().spec_conns().len()
                    && self.spec_connections().spec_conns()[k] == *c),
    {
        let r = self.connections.get(id);
        proof {
            if r is Some {
                let c = r->Some_0;
                let k = choose|k: int|
                    0 <= k < self.connections.spec_conns().len()
                        && self.connections.spec_conns()[k] == *c;
                assert(self.spec_connections().spec_conns()[k] == *c);
            }
        }
        r
    }

    /// Closes a connection: its record stays in the table (so its id is
    /// never reused) with status `Closed`. Fails with `UnknownConnection`
    /// exactly when the id was never issued, and then changes nothing.
    pub fn close_connection(&mut self, id: u64) -> (r: Result<(), GatewayError>)
        requires
            old(self).wf(),
        ensures
            final(self).wf(),
            r is Ok <==> old(self).spec_connections().contains_id(id),
            r matches Err(e) ==> e == GatewayError::UnknownConnection && *final(self) == *old(self),
            final(self).spec_stats() == old(self).spec_stats(),
            final(self).spec_registry() == old(self).spec_registry(),
            final(self).spec_syncs() == old(self).spec_syncs(),
            final(self).spec_meshes() == old(self).spec_meshes(),
            final(self).spec_next_sync_id() == old(self).spec_next_sync_id(),
            final(self).spec_next_mesh_id() == old(self).spec_next_mesh_id(),
            final(self).spec_next_transform_id() == old(self).spec_next_transform_id(),
            final(self).spec_connections().spec_next_id() == old(self).spec_connections().spec_next_id(),
            stats_le(old(self).spec_stats(), final(self).spec_stats()),
            old(self).spec_connections().spec_next_id() <= final(self).spec_connections().spec_next_id(),
            r is Ok ==> {
                &&& final(self).spec_connections().spec_conns().len() == old(self).spec_connections().spec_conns().len()
                &&& forall|k: int|
                    0 <= k < old(self).spec_connections().spec_conns().len() && old(self).spec_connections().spec_conns()[k].id == id ==> final(self).spec_connections().spec_conns()[k].status == ConnStatus::Closed
                &&& forall|k: int|
                    0 <= k < old(self).spec_connections().spec_conns().len() && old(self).spec_connections().spec_conns()[k].id != id ==> final(self).spec_connections().spec_conns()[k] == old(self).spec_connections().spec_conns()[k]
                &&& final(self).spec_connections().contains_id(id)
            },
    {
        let r = self.connections.close(id);
        proof {
            if old(self).spec_connections().contains_id(id) {
                assert(self.connections.ids() =~= old(self).spec_connections().ids());
            }
            lemma_wf_preserved_meshes(*old(self), *self);
        }
        r
    }

    /// Records one synchronization over `connection_id`: the number of
    /// top-level entries and the serialized byte length of the delta
    /// payload, and the measured duration of the operation.
    ///
    /// Fails with `UnknownConnection` exactly when the id is not in the
    /// connection table; then nothing changes — in particular the sync
    /// counter does not move. On success the event is appended to the
    /// ledger, `total_syncs` grows by exactly one and `bytes_relayed` by
    /// exactly the payload size.
    pub fn record_sync(
        &mut self,
        connection_id: u64,
        objects_synced: u64,
        payload_bytes: u64,
        elapsed_us: u64,
    ) -> (r: Result<SyncEvent, GatewayError>)
        requires
            old(self).wf(),
            old(self).spec_stats().total_syncs < u64::MAX,
            old(self).spec_stats().bytes_relayed + payload_bytes <= u64::MAX,
            old(self).spec_next_sync_id() < u64::MAX,
        ensures
            final(self).wf(),
            r is Err <==> !old(self).spec_connections().contains_id(connection_id),
            r matches Err(e) ==> e == GatewayError::UnknownConnection && *final(self) == *old(self),
            r matches Ok(ev) ==> {
                &&& ev.id == old(self).spec_next_sync_id()
                &&& ev.connection_id == connection_id
                &&& ev.objects_synced == objects_synced
                &&& ev.bytes_transferred == payload_bytes
                &&& ev.latency_us == elapsed_us
                &&& final(self).spec_syncs() == old(self).spec_syncs().push(ev)
                &&& final(self).spec_next_sync_id() == old(self).spec_next_sync_id() + 1
                &&& final(self).spec_stats().total_syncs == old(self).spec_stats().total_syncs + 1
                &&& final(self).spec_stats().bytes_relayed == old(self).spec_stats().bytes_relayed
                    + payload_bytes
                &&& final(self).spec_stats().total_connections == old(self).spec_stats().total_connections
                &&& final(self).spec_stats().total_transforms == old(self).spec_stats().total_transforms
                &&& final(self).spec_connections() == old(self).spec_connections()
                &&& final(self).spec_meshes() == old(self).spec_meshes()
                &&& final(self).spec_registry() == old(self).spec_registry()
                &&& final(self).spec_next_mesh_id() == old(self).spec_next_mesh_id()
                &&& final(self).spec_next_transform_id() == old(self).spec_next_transform_id()
            },
            stats_le(old(self).spec_stats(), final(self).spec_stats()),
            old(self).spec_connections().spec_next_id() <= final(self).spec_connections().spec_next_id(),
    {
        if self.connections.get(connection_id).is_none() {
            return Err(GatewayError::UnknownConnection);
        }
        let ev = SyncEvent {
            id: self.next_sync_id,
            connection_id,
            objects_synced,
            bytes_transferred: payload_bytes,
            latency_us: elapsed_us,
        };
        self.syncs.push(ev);
        self.next_sync_id = self.next_sync_id + 1;
        self.stats.total_syncs = self.stats.total_syncs + 1;
        self.stats.bytes_relayed = self.stats.bytes_relayed + payload_bytes;
        proof {
            lemma_wf_preserved_meshes(*old(self), *self);
        }
        Ok(ev)
    }

    /// Converts `payload` from `source` to `target`: both protocols must be
    /// in the registry, else the call fails with `UnsupportedProtocol` and
    /// changes nothing — in particular the transform counter does not move.
    /// On success the output is exactly the envelope of the payload under
    /// the target protocol, and `total_transforms` grows by exactly one.
    pub fn transform(&mut self, source: &str, target: &str, payload: &[u8]) -> (r: Result<
        TransformRecord,
        GatewayError,
    >)
        requires
            old(self).wf(),
            old(self).spec_stats().total_transforms < u64::MAX,
            old(self).spec_next_transform_id() < u64::MAX,
        ensures
            final(self).wf(),
            r is Err <==> !(old(self).spec_registry().lists(source@) && old(self).spec_registry().lists(target@)),
            r matches Err(e) ==> e == GatewayError::UnsupportedProtocol && *final(self) == *old(self),
            r matches Ok(rec) ==> {
                &&& rec.id == old(self).spec_next_transform_id()
                &&& rec.output@ == envelope_spec(
                    source.spec_bytes(),
                    target.spec_bytes(),
                    payload@,
                )
                &&& final(self).spec_next_transform_id() == old(self).spec_next_transform_id() + 1
                &&& final(self).spec_stats().total_transforms == old(self).spec_stats().total_transforms + 1
                &&& final(self).spec_stats().total_connections == old(self).spec_stats().total_connections
                &&& final(self).spec_stats().total_syncs == old(self).spec_stats().total_syncs
                &&& final(self).spec_stats().bytes_relayed == old(self).spec_stats().bytes_relayed
                &&& final(self).spec_connections() == old(self).spec_connections()
                &&& final(self).spec_syncs() == old(self).spec_syncs()
                &&& final(self).spec_meshes() == old(self).spec_meshes()
                &&& final(self).spec_registry() == old(self).spec_registry()
                &&& final(self).spec_next_sync_id() == old(self).spec_next_sync_id()
                &&& final(self).spec_next_mesh_id() == old(self).spec_next_mesh_id()
            },
            stats_le(old(self).spec_stats(), final(self).spec_stats()),
            old(self).spec_connections().spec_next_id() <= final(self).spec_connections().spec_next_id(),
    {
        if !self.registry.contains(source) {
            return Err(GatewayError::UnsupportedProtocol);
        }
        if !self.registry.contains(target) {
            return Err(GatewayError::UnsupportedProtocol);
        }
        let output = build_envelope(source.as_bytes(), target.as_bytes(), payload);
        let rec = TransformRecord { id: self.next_transform_id, output };
        self.next_transform_id = self.next_transform_id + 1;
        self.stats.total_transforms = self.stats.total_transforms + 1;
        proof {
            lemma_wf_preserved_meshes(*old(self), *self);
        }
        Ok(rec)
    }

    /// Builds a mesh over `devices` with the given or default topology,
    /// keeps it in the mesh registry, and returns its fresh id.
    ///
    /// Fails with `InvalidInput` exactly when the device list is empty, and
    /// then changes nothing.
    pub fn create_mesh(&mut self, devices: Vec<String>, topology: Option<Topology>) -> (r: Result<
        u64,
        GatewayError,
    >)
        requires
            old(self).wf(),
            old(self).spec_next_mesh_id() < u64::MAX,
        ensures
            final(self).wf(),
            r is Err <==> devices@.len() == 0,
            r matches Err(e) ==> e == GatewayError::InvalidInput && *final(self) == *old(self),
            r matches Ok(id) ==> {
                &&& id == old(self).spec_next_mesh_id()
                &&& final(self).spec_next_mesh_id() == id + 1
                &&& final(self).spec_meshes().len() == old(self).spec_meshes().len() + 1
                &&& forall|k: int|
                    0 <= k < old(self).spec_meshes().len() ==> final(self).spec_meshes()[k] == old(self).spec_meshes()[k]
                &&& final(self).spec_meshes().last().id == id
                &&& final(self).spec_meshes().last().devices@ == devices@
                &&& final(self).spec_meshes().last().topology == chosen_topology(topology)
                &&& mesh_edges_ok(
                    chosen_topology(topology),
                    final(self).spec_meshes().last().edges@,
                    devices@.len() as int,
                )
                &&& mesh_wf(final(self).spec_meshes().last())
                &&& devices@.len() == 1 ==> final(self).spec_meshes().last().edges@.len() == 0
                &&& final(self).spec_stats() == old(self).spec_stats()
                &&& final(self).spec_connections() == old(self).spec_connections()
                &&& final(self).spec_syncs() == old(self).spec_syncs()
                &&& final(self).spec_registry() == old(self).spec_registry()
                &&& final(self).spec_next_sync_id() == old(self).spec_next_sync_id()
                &&& final(self).spec_next_transform_id() == old(self).spec_next_transform_id()
            },
            stats_le(old(self).spec_stats(), final(self).spec_stats()),
            old(self).spec_connections().spec_next_id() <= final(self).spec_connections().spec_next_id(),
    {
        let topo = match topology {
            Some(t) => t,
            None => Topology::FullMesh,
        };
        let id = self.next_mesh_id;
        match build_mesh(id, devices, topo) {
            Ok(m) => {
                self.meshes.push(m);
                self.next_mesh_id = id + 1;
                proof {
                    assert(self.mesh_ids() =~= old(self).mesh_ids().push(id));
                    assert(self.mesh_ids()[old(self).mesh_ids().len() as int] == id);
                }
                Ok(id)
            },
            Err(e) => Err(e),
        }
    }

    /// Looks a mesh up by its id.
    pub fn get_mesh(&self, id: u64) -> (r: Option<&Mesh>)
        ensures
            r is Some <==> (exists|k: int|
                0 <= k < self.mesh_ids().len() && self.mesh_ids()[k] == id),
            r matches Some(m) ==> m.id == id && (exists|k: int|
                0 <= k < self.spec_meshes().len() && self.spec_meshes()[k] == *m),
    {
        let n = self.meshes.len();
        let mut i: usize = 0;
        while i < n
            invariant
                n == self.spec_meshes().len(),
                i <= n,
                forall|k: int| 0 <= k < i ==> self.mesh_ids()[k] != id,
            decreases n - i,
        {
            if self.meshes[i].id == id {
                assert(self.mesh_ids()[i as int] == id);
                return Some(&self.meshes[i]);
            }
            i += 1;
        }
        None
    }

    /// How many sync events the ledger holds.
    pub fn sync_count(&self) -> (r: usize)
        ensures
            r == self.spec_syncs().len(),
    {
        self.syncs.len()
    }

    /// The sync event at a ledger position, in submission order.
    pub fn sync_at(&self, i: usize) -> (r: SyncEvent)
        requires
            i < self.spec_syncs().len(),
        ensures
            r == self.spec_syncs()[i as int],
    {
        self.syncs[i]
    }

    /// The id the next successful connect will return.
    pub fn next_connection_id(&self) -> (r: u64)
        ensures
            r == self.spec_connections().spec_next_id(),
    {
        self.connections.next_id()
    }

    /// The id the next recorded sync will take.
    pub fn next_sync_id(&self) -> (r: u64)
        ensures
            r == self.spec_next_sync_id(),
    {
        self.next_sync_id
    }

    /// The id the next created mesh will take.
    pub fn next_mesh_id(&self) -> (r: u64)
        ensures
            r == self.spec_next_mesh_id(),
    {
        self.next_mesh_id
    }

    /// The id the next transform will take.
    pub fn next_transform_id(&self) -> (r: u64)
        ensures
            r == self.spec_next_transform_id(),
    {
        self.next_transform_id
    }

    /// A read-only rollup of the counters and the mesh registry.
    pub fn stats(&self) -> (s: StatsSnapshot)
        ensures
            s.total_connections == self.spec_stats().total_connections,
            s.total_syncs == self.spec_stats().total_syncs,
            s.total_transforms == self.spec_stats().total_transforms,
            s.bytes_relayed == self.spec_stats().bytes_relayed,
            s.active_meshes == self.spec_meshes().len(),
    {
        StatsSnapshot {
            total_connections: self.stats.total_connections,
            total_syncs: self.stats.total_syncs,
            total_transforms: self.stats.total_transforms,
            bytes_relayed: self.stats.bytes_relayed,
            active_meshes: self.meshes.len(),
        }
    }

    /// The health report: the caller reads its monotone clock and passes
    /// the uptime in seconds; the report carries it through unchanged.
    pub fn health(&self, uptime_secs: u64, version: String) -> (h: Health)
        ensures
            h.status@ == "ok"@,
            h.version@ == version@,
            h.uptime_secs == uptime_secs,
            h.total_ops == total_ops_spec(self.spec_stats()),
    {
        let total_ops = if self.stats.total_connections <= u64::MAX - self.stats.total_syncs {
            self.stats.total_connections + self.stats.total_syncs
        } else {
            u64::MAX
        };
        Health { status: String::from_str("ok"), version, uptime_secs, total_ops }
    }
}

/// The mesh-id clauses of `wf` carry over unchanged meshes.
proof fn lemma_wf_preserved_meshes(a: Gateway, b: Gateway)
    requires
        a.wf(),
        b.spec_connections().wf(),
        b.spec_meshes() == a.spec_meshes(),
        b.spec_next_mesh_id() == a.spec_next_mesh_id(),
    ensures
        b.wf(),
{
    assert(b.mesh_ids() =~= a.mesh_ids());
}

/// The state transition a successful connect makes, as far as id issue is
/// concerned: the returned id is the table's `next_id`, and afterwards
/// `next_id` has passed it.
pub open spec fn connect_issued(pre: Gateway, post: Gateway, id: u64) -> bool {
    id == pre.spec_connections().spec_next_id() && id < post.spec_connections().spec_next_id()
}

/// Connection ids are unique across a process lifetime: two successful
/// connects never return the same id. The premise
/// `post1.next_id <= pre2.next_id` holds whenever the second connect comes
/// anywhere after the first, because every gateway operation promises that
/// the table's `next_id` never decreases.
pub proof fn lemma_connect_ids_unique(
    pre1: Gateway,
    post1: Gateway,
    id1: u64,
    pre2: Gateway,
    post2: Gateway,
    id2: u64,
)
    requires
        connect_issued(pre1, post1, id1),
        connect_issued(pre2, post2, id2),
        post1.spec_connections().spec_next_id() <= pre2.spec_connections().spec_next_id(),
    ensures
        id1 != id2,
{
}

/// Reported uptime never decreases: the health report carries the clock
/// reading through unchanged, so as long as the caller's clock is monotone
/// (a monotonic clock source), successive reports are non-decreasing.
pub proof fn lemma_health_uptime_monotone(h1: Health, h2: Health, u1: u64, u2: u64)
    requires
        h1.uptime_secs == u1,
        h2.uptime_secs == u2,
        u1 <= u2,
    ensures
        h1.uptime_secs <= h2.uptime_secs,
{
}

} // verus!
