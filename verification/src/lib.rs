//! Core of a cloud device gateway: a connection table with unique ids, a
//! sync ledger, a protocol registry and transformer, a mesh topology builder,
//! and monotone operation counters. All state lives in plain values; the
//! HTTP layer around it converts to and from the wire format.

mod connections;
mod errors;
mod gateway;
mod mesh;
mod protocol;
mod stats;
mod transform;

pub use connections::{ConnStatus, Connection, ConnectionTable};
pub use errors::GatewayError;
pub use gateway::{
    Gateway, Health, StatsSnapshot, SyncEvent, TransformRecord, chosen_protocol, chosen_region,
    chosen_topology, connect_issued, default_protocol, default_region, endpoint_prefix,
    lemma_connect_ids_unique, lemma_health_uptime_monotone, total_ops_spec,
};
pub use mesh::{
    Mesh, MeshEdge, Topology, build_mesh, edge_latency_spec, edge_latency_us, edge_lex_lt,
    edge_ok, full_edges_ok, has_pair, line_edges_ok, mesh_edges_ok, mesh_wf, ring_edges_ok,
    star_edges_ok,
};
pub use protocol::{ProtocolInfo, ProtocolRegistry};
pub use stats::{Stats, stats_le, lemma_stats_le_refl, lemma_stats_le_trans};
pub use transform::{build_envelope, env_body, env_close, env_open, env_source, envelope_spec};
