//! The mesh builder: turns an ordered list of device ids into a topology
//! graph with a reproducible per-edge latency model.

use vstd::prelude::*;
use crate::errors::GatewayError;

verus! {

/// The shape of the graph built over the device list.
#[derive(Clone, Copy, PartialEq, Eq, Structural, Debug)]
pub enum Topology {
    FullMesh,
    Ring,
    Star,
    Line,
}

impl Topology {
    pub open spec fn spec_name(self) -> Seq<char> {
        match self {
            Topology::FullMesh => "full-mesh"@,
            Topology::Ring => "ring"@,
            Topology::Star => "star"@,
            Topology::Line => "line"@,
        }
    }

    /// The topology's name as it appears on the wire.
    pub fn name(&self) -> (r: &'static str)
        ensures
            r@ == self.spec_name(),
    {
        match self {
            Topology::FullMesh => "full-mesh",
            Topology::Ring => "ring",
            Topology::Star => "star",
            Topology::Line => "line",
        }
    }

    pub open spec fn spec_parse(s: Seq<char>) -> Option<Topology> {
        if s == "full-mesh"@ {
            Some(Topology::FullMesh)
        } else if s == "ring"@ {
            Some(Topology::Ring)
        } else if s == "star"@ {
            Some(Topology::Star)
        } else if s == "line"@ {
            Some(Topology::Line)
        } else {
            None
        }
    }

    /// Reads a topology name; `None` exactly when the name is not one of
    /// the four shapes.
    pub fn parse(s: &str) -> (r: Option<Topology>)
        ensures
            r == Topology::spec_parse(s@),
    {
        let key = s.to_owned();
        if key == String::from_str("full-mesh") {
            Some(Topology::FullMesh)
        } else if key == String::from_str("ring") {
            Some(Topology::Ring)
        } else if key == String::from_str("star") {
            Some(Topology::Star)
        } else if key == String::from_str("line") {
            Some(Topology::Line)
        } else {
            None
        }
    }
}

/// A directed link between two positions of the device list.
#[derive(Clone, Copy, PartialEq, Eq, Structural, Debug)]
pub struct MeshEdge {
    pub from: usize,
    pub to: usize,
    pub latency_us: u64,
}

/// A built mesh: the device list as given, and the edges of the chosen
/// topology. Edges name devices by their position in `devices`, so an edge
/// can only ever join listed devices.
pub struct Mesh {
    pub id: u64,
    pub devices: Vec<String>,
    pub topology: Topology,
    pub edges: Vec<MeshEdge>,
}

/// The modelled latency of the edge at position `k` of the edge list:
/// a 15 ms base plus 5 ms of deterministic jitter per edge index, cycling
/// every 64 edges so the value never overflows. In microseconds.
pub open spec fn edge_latency_spec(k: int) -> u64 {
    (15_000 + 5_000 * (k % 64)) as u64
}

pub fn edge_latency_us(k: usize) -> (r: u64)
    ensures
        r == edge_latency_spec(k as int),
{
    15_000 + 5_000 * ((k as u64) % 64)
}

/// Edge `e`, sitting at position `k` of the edge list, joins `a` to `b`.
pub open spec fn edge_ok(e: MeshEdge, a: int, b: int, k: int) -> bool {
    e.from == a && e.to == b && e.latency_us == edge_latency_spec(k)
}

/// Line: consecutive devices only.
pub open spec fn line_edges_ok(edges: Seq<MeshEdge>, n: int) -> bool {
    &&& edges.len() == if n >= 1 {
        n - 1
    } else {
        0
    }
    &&& forall|k: int| 0 <= k < edges.len() ==> edge_ok(#[trigger] edges[k], k, k + 1, k)
}

/// Ring: the line edges plus one closing the last device back to the first.
/// A single device forms no ring, so it has no edges.
pub open spec fn ring_edges_ok(edges: Seq<MeshEdge>, n: int) -> bool {
    if n < 2 {
        edges.len() == 0
    } else {
        &&& edges.len() == n
        &&& forall|k: int| 0 <= k < n - 1 ==> edge_ok(#[trigger] edges[k], k, k + 1, k)
        &&& edge_ok(edges[n - 1], n - 1, 0, n - 1)
    }
}

/// Star: the first device linked to every other.
pub open spec fn star_edges_ok(edges: Seq<MeshEdge>, n: int) -> bool {
    &&& edges.len() == if n >= 1 {
        n - 1
    } else {
        0
    }
    &&& forall|k: int| 0 <= k < edges.len() ==> edge_ok(#[trigger] edges[k], 0, k + 1, k)
}

/// Strict lexicographic order on edge endpoints.
pub open spec fn edge_lex_lt(e1: MeshEdge, e2: MeshEdge) -> bool {
    e1.from < e2.from || (e1.from == e2.from && e1.to < e2.to)
}

/// Whether the edge list holds a link from `a` to `b`.
pub open spec fn has_pair(edges: Seq<MeshEdge>, a: int, b: int) -> bool {
    exists|k: int| 0 <= k < edges.len() && edges[k].from == a && edges[k].to == b
}

/// Full mesh: exactly one edge for every unordered device pair, listed in
/// lexicographic order of endpoint positions.
pub open spec fn full_edges_ok(edges: Seq<MeshEdge>, n: int) -> bool {
    &&& forall|k: int|
        0 <= k < edges.len() ==> (#[trigger] edges[k]).from < edges[k].to < n
            && edges[k].latency_us == edge_latency_spec(k)
    &&& forall|k1: int, k2: int|
        0 <= k1 < k2 < edges.len() ==> edge_lex_lt(#[trigger] edges[k1], #[trigger] edges[k2])
    &&& forall|a: int, b: int| 0 <= a < b < n ==> #[trigger] has_pair(edges, a, b)
    &&& 2 * edges.len() == n * (n - 1)
}

/// What the edge list of a mesh over `n` devices is, per topology.
pub open spec fn mesh_edges_ok(t: Topology, edges: Seq<MeshEdge>, n: int) -> bool {
    match t {
        Topology::Line => line_edges_ok(edges, n),
        Topology::Ring => ring_edges_ok(edges, n),
        Topology::Star => star_edges_ok(edges, n),
        Topology::FullMesh => full_edges_ok(edges, n),
    }
}

/// Every edge joins two distinct listed devices: no self-edges, no edge to
/// a device outside the list.
pub open spec fn mesh_wf(m: Mesh) -> bool {
    forall|k: int|
        0 <= k < m.edges@.len() ==> (#[trigger] m.edges@[k]).from < m.devices@.len()
            && m.edges@[k].to < m.devices@.len() && m.edges@[k].from != m.edges@[k].to
}

/// Builds the mesh `id` over `devices` with the given topology.
///
/// Fails with `InvalidInput` exactly when the device list is empty; a single
/// device always yields zero edges.
pub fn build_mesh(id: u64, devices: Vec<String>, topology: Topology) -> (r: Result<
    Mesh,
    GatewayError,
>)
    ensures
        r is Err <==> devices@.len() == 0,
        r matches Err(e) ==> e == GatewayError::InvalidInput,
        r matches Ok(m) ==> {
            &&& m.id == id
            &&& m.devices@ == devices@
            &&& m.topology == topology
            &&& mesh_edges_ok(topology, m.edges@, devices@.len() as int)
            &&& mesh_wf(m)
            &&& devices@.len() == 1 ==> m.edges@.len() == 0
        },
{
    if devices.is_empty() {
        return Err(GatewayError::InvalidInput);
    }
    let n = devices.len();
    let mut edges: Vec<MeshEdge> = Vec::new();
    match topology {
        Topology::Line => {
            build_path_edges(&mut edges, n);
        },
        Topology::Ring => {
            build_path_edges(&mut edges, n);
            if n >= 2 {
                let lat = edge_latency_us(n - 1);
                edges.push(MeshEdge { from: n - 1, to: 0, latency_us: lat });
            }
        },
        Topology::Star => {
            let mut i: usize = 1;
            while i < n
                invariant
                    1 <= i <= n,
                    edges@.len() == i - 1,
                    forall|k: int|
                        0 <= k < edges@.len() ==> edge_ok(#[trigger] edges@[k], 0, k + 1, k),
                decreases n - i,
            {
                let lat = edge_latency_us(i - 1);
                edges.push(MeshEdge { from: 0, to: i, latency_us: lat });
                i += 1;
            }
        },
        Topology::FullMesh => {
            build_full_edges(&mut edges, n);
        },
    }
    let m = Mesh { id, devices, topology, edges };
    proof {
        assert(m.devices@ == devices@);
        assert(mesh_edges_ok(topology, m.edges@, devices@.len() as int));
        assert(mesh_wf(m));
        if devices@.len() == 1 {
            match topology {
                Topology::FullMesh => {
                    assert(2 * m.edges@.len() == 1 * (1 - 1));
                },
                Topology::Ring => {},
                Topology::Star => {},
                Topology::Line => {},
            }
            assert(m.edges@.len() == 0);
        }
    }
    Ok(m)
}

/// Pushes the line edges, one between each pair of consecutive devices.
fn build_path_edges(edges: &mut Vec<MeshEdge>, n: usize)
    requires
        old(edges)@.len() == 0,
        n >= 1,
    ensures
        line_edges_ok(final(edges)@, n as int),
{
    let mut i: usize = 0;
    while i + 1 < n
        invariant
            i <= n - 1,
            n >= 1,
            edges@.len() == i,
            forall|k: int| 0 <= k < edges@.len() ==> edge_ok(#[trigger] edges@[k], k, k + 1, k),
        decreases n - i,
    {
        let lat = edge_latency_us(i);
        edges.push(MeshEdge { from: i, to: i + 1, latency_us: lat });
        i += 1;
    }
}

/// Pushes one edge for every unordered device pair, rows in order of the
/// lower endpoint.
fn build_full_edges(edges: &mut Vec<MeshEdge>, n: usize)
    requires
        old(edges)@.len() == 0,
        n >= 1,
    ensures
        full_edges_ok(final(edges)@, n as int),
{
    let mut i: usize = 0;
    while i < n
        invariant
            i <= n,
            forall|k: int|
                0 <= k < edges@.len() ==> (#[trigger] edges@[k]).from < edges@[k].to < n
                    && edges@[k].from < i && edges@[k].latency_us == edge_latency_spec(k),
            forall|k1: int, k2: int|
                0 <= k1 < k2 < edges@.len() ==> edge_lex_lt(
                    #[trigger] edges@[k1],
                    #[trigger] edges@[k2],
                ),
            forall|a: int, b: int|
                0 <= a < b < n && a < i ==> #[trigger] has_pair(edges@, a, b),
            2 * edges@.len() == i * (2 * n - i - 1),
        decreases n - i,
    {
        let ghost row_start = edges@;
        let mut j: usize = i + 1;
        while j < n
            invariant
                i < n,
                i + 1 <= j <= n,
                forall|k: int|
                    0 <= k < edges@.len() ==> (#[trigger] edges@[k]).from < edges@[k].to < n
                        && (edges@[k].from < i || (edges@[k].from == i && edges@[k].to < j))
                        && edges@[k].latency_us == edge_latency_spec(k),
                forall|k1: int, k2: int|
                    0 <= k1 < k2 < edges@.len() ==> edge_lex_lt(
                        #[trigger] edges@[k1],
                        #[trigger] edges@[k2],
                    ),
                forall|a: int, b: int|
                    0 <= a < b < n && (a < i || (a == i && b < j)) ==> #[trigger] has_pair(
                        edges@,
                        a,
                        b,
                    ),
                2 * edges@.len() == i * (2 * n - i - 1) + 2 * (j - i - 1),
            decreases n - j,
        {
            let ghost before = edges@;
            let lat = edge_latency_us(edges.len());
            edges.push(MeshEdge { from: i, to: j, latency_us: lat });
            j += 1;
            proof {
                assert forall|a: int, b: int|
                    0 <= a < b < n && (a < i || (a == i && b < j)) implies #[trigger] has_pair(
                    edges@,
                    a,
                    b,
                ) by {
                    if a == i as int && b == j - 1 {
                        assert(edges@[edges@.len() - 1].from == a);
                        assert(edges@[edges@.len() - 1].to == b);
                    } else {
                        assert(has_pair(before, a, b));
                        let k = choose|k: int|
                            0 <= k < before.len() && before[k].from == a && before[k].to == b;
                        assert(edges@[k] == before[k]);
                    }
                }
            }
        }
        i += 1;
        proof {
            assert((i - 1) * (2 * n - (i - 1) - 1) + 2 * (n - (i - 1) - 1) == i * (2 * n - i - 1))
                by (nonlinear_arith);
        }
    }
}

} // verus!
