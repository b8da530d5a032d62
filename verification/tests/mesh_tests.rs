use gateway_engine::{GatewayError, Topology, build_mesh, edge_latency_us};

fn devices(names: &[&str]) -> Vec<String> {
    names.iter().map(|s| s.to_string()).collect()
}

#[test]
fn line_three_devices() {
    let m = build_mesh(1, devices(&["A", "B", "C"]), Topology::Line).unwrap();
    assert_eq!(m.devices.len(), 3);
    assert_eq!(m.edges.len(), 2);
    assert_eq!((m.edges[0].from, m.edges[0].to), (0, 1));
    assert_eq!((m.edges[1].from, m.edges[1].to), (1, 2));
    for e in &m.edges {
        assert_ne!(e.from, e.to);
    }
    assert_eq!(m.edges[0].latency_us, 15_000);
    assert_eq!(m.edges[1].latency_us, 20_000);
}

#[test]
fn ring_three_devices() {
    let m = build_mesh(2, devices(&["A", "B", "C"]), Topology::Ring).unwrap();
    assert_eq!(m.edges.len(), 3);
    assert_eq!((m.edges[0].from, m.edges[0].to), (0, 1));
    assert_eq!((m.edges[1].from, m.edges[1].to), (1, 2));
    assert_eq!((m.edges[2].from, m.edges[2].to), (2, 0));
}

#[test]
fn ring_two_devices() {
    let m = build_mesh(3, devices(&["A", "B"]), Topology::Ring).unwrap();
    assert_eq!(m.edges.len(), 2);
    assert_eq!((m.edges[0].from, m.edges[0].to), (0, 1));
    assert_eq!((m.edges[1].from, m.edges[1].to), (1, 0));
}

#[test]
fn single_device_zero_edges() {
    for t in [Topology::FullMesh, Topology::Ring, Topology::Star, Topology::Line] {
        let m = build_mesh(4, devices(&["only"]), t).unwrap();
        assert_eq!(m.devices.len(), 1);
        assert_eq!(m.edges.len(), 0);
    }
}

#[test]
fn star_four_devices() {
    let m = build_mesh(5, devices(&["hub", "a", "b", "c"]), Topology::Star).unwrap();
    assert_eq!(m.edges.len(), 3);
    assert_eq!((m.edges[0].from, m.edges[0].to), (0, 1));
    assert_eq!((m.edges[1].from, m.edges[1].to), (0, 2));
    assert_eq!((m.edges[2].from, m.edges[2].to), (0, 3));
}

#[test]
fn full_mesh_four_devices() {
    let m = build_mesh(6, devices(&["a", "b", "c", "d"]), Topology::FullMesh).unwrap();
    assert_eq!(m.edges.len(), 6);
    let pairs: Vec<(usize, usize)> = m.edges.iter().map(|e| (e.from, e.to)).collect();
    assert_eq!(pairs, vec![(0, 1), (0, 2), (0, 3), (1, 2), (1, 3), (2, 3)]);
    for (k, e) in m.edges.iter().enumerate() {
        assert_eq!(e.latency_us, 15_000 + 5_000 * (k as u64 % 64));
    }
}

#[test]
fn empty_devices_rejected() {
    let r = build_mesh(7, Vec::new(), Topology::Line);
    assert_eq!(r.err().unwrap(), GatewayError::InvalidInput);
}

#[test]
fn latency_model_cycles() {
    assert_eq!(edge_latency_us(0), 15_000);
    assert_eq!(edge_latency_us(1), 20_000);
    assert_eq!(edge_latency_us(63), 330_000);
    assert_eq!(edge_latency_us(64), 15_000);
}

#[test]
fn topology_names_parse() {
    assert_eq!(Topology::parse("line"), Some(Topology::Line));
    assert_eq!(Topology::parse("ring"), Some(Topology::Ring));
    assert_eq!(Topology::parse("star"), Some(Topology::Star));
    assert_eq!(Topology::parse("full-mesh"), Some(Topology::FullMesh));
    assert_eq!(Topology::parse("grid"), None);
    assert_eq!(Topology::Line.name(), "line");
    assert_eq!(Topology::FullMesh.name(), "full-mesh");
}
