use gateway_engine::{ConnStatus, Gateway, GatewayError, StatsSnapshot, Topology};

fn le(a: &StatsSnapshot, b: &StatsSnapshot) -> bool {
    a.total_connections <= b.total_connections && a.total_syncs <= b.total_syncs
        && a.total_transforms <= b.total_transforms && a.bytes_relayed <= b.bytes_relayed
}

#[test]
fn connect_ids_unique_and_counted() {
    let mut g = Gateway::new();
    let id1 = g.connect("dev-1".to_string(), None, None).unwrap();
    let id2 = g.connect("dev-2".to_string(), None, None).unwrap();
    assert_ne!(id1, id2);
    assert_eq!(g.stats().total_connections, 2);
}

#[test]
fn connect_empty_device_rejected() {
    let mut g = Gateway::new();
    let r = g.connect(String::new(), None, None);
    assert_eq!(r.err().unwrap(), GatewayError::InvalidInput);
    assert_eq!(g.stats().total_connections, 0);
}

#[test]
fn connect_unknown_protocol_rejected() {
    let mut g = Gateway::new();
    let r = g.connect("dev-1".to_string(), Some("carrier-pigeon".to_string()), None);
    assert_eq!(r.err().unwrap(), GatewayError::UnsupportedProtocol);
    assert_eq!(g.stats().total_connections, 0);
}

#[test]
fn connect_fills_defaults() {
    let mut g = Gateway::new();
    let id = g.connect("dev-9".to_string(), None, None).unwrap();
    let c = g.get_connection(id).unwrap();
    assert_eq!(c.device_id, "dev-9");
    assert_eq!(c.protocol, "sdf-stream");
    assert_eq!(c.region, "us-east-1");
    assert_eq!(c.endpoint, "wss://gateway.alice-platform.com/us-east-1");
    assert_eq!(c.status.name(), "connected");
}

#[test]
fn connect_keeps_given_attributes() {
    let mut g = Gateway::new();
    let id = g
        .connect("dev-2".to_string(), Some("grpc-relay".to_string()), Some("eu-west-2".to_string()))
        .unwrap();
    let c = g.get_connection(id).unwrap();
    assert_eq!(c.protocol, "grpc-relay");
    assert_eq!(c.region, "eu-west-2");
    assert_eq!(c.endpoint, "wss://gateway.alice-platform.com/eu-west-2");
}

#[test]
fn sync_unknown_connection_rejected() {
    let mut g = Gateway::new();
    let r = g.record_sync(99, 12, 4096, 8500);
    assert_eq!(r.err().unwrap(), GatewayError::UnknownConnection);
    assert_eq!(g.stats().total_syncs, 0);
    assert_eq!(g.stats().bytes_relayed, 0);
}

#[test]
fn sync_records_sizes_and_counters() {
    let mut g = Gateway::new();
    let id = g.connect("dev-1".to_string(), None, None).unwrap();
    let ev = g.record_sync(id, 12, 4096, 8500).unwrap();
    assert_eq!(ev.connection_id, id);
    assert_eq!(ev.objects_synced, 12);
    assert_eq!(ev.bytes_transferred, 4096);
    assert_eq!(ev.latency_us, 8500);
    assert_eq!(g.stats().total_syncs, 1);
    assert_eq!(g.stats().bytes_relayed, 4096);
    assert_eq!(g.sync_count(), 1);
    assert_eq!(g.sync_at(0), ev);
}

#[test]
fn sync_ids_distinct() {
    let mut g = Gateway::new();
    let id = g.connect("dev-1".to_string(), None, None).unwrap();
    let e1 = g.record_sync(id, 1, 10, 5).unwrap();
    let e2 = g.record_sync(id, 2, 20, 6).unwrap();
    assert_ne!(e1.id, e2.id);
    assert_eq!(g.stats().bytes_relayed, 30);
}

#[test]
fn close_marks_closed_and_keeps_record() {
    let mut g = Gateway::new();
    let id = g.connect("dev-1".to_string(), None, None).unwrap();
    g.close_connection(id).unwrap();
    let c = g.get_connection(id).unwrap();
    assert_eq!(c.status, ConnStatus::Closed);
    // The record stays in the table, so a later sync still finds the id.
    assert!(g.record_sync(id, 1, 1, 1).is_ok());
}

#[test]
fn close_unknown_connection_rejected() {
    let mut g = Gateway::new();
    let r = g.close_connection(5);
    assert_eq!(r.err().unwrap(), GatewayError::UnknownConnection);
}

#[test]
fn transform_unknown_protocol_rejected() {
    let mut g = Gateway::new();
    let r = g.transform("sdf-stream", "smoke-signal", b"{}");
    assert_eq!(r.err().unwrap(), GatewayError::UnsupportedProtocol);
    let r2 = g.transform("smoke-signal", "sdf-stream", b"{}");
    assert_eq!(r2.err().unwrap(), GatewayError::UnsupportedProtocol);
    assert_eq!(g.stats().total_transforms, 0);
}

#[test]
fn transform_envelopes_payload() {
    let mut g = Gateway::new();
    let rec = g.transform("sdf-stream", "grpc-relay", b"{\"a\":1}").unwrap();
    let expected = b"{\"target\":\"grpc-relay\",\"source\":\"sdf-stream\",\"body\":{\"a\":1}}";
    assert_eq!(rec.output, expected.to_vec());
    assert_eq!(g.stats().total_transforms, 1);
}

#[test]
fn mesh_registry_tracks_meshes() {
    let mut g = Gateway::new();
    let devs = vec!["A".to_string(), "B".to_string(), "C".to_string()];
    let id = g.create_mesh(devs, Some(Topology::Line)).unwrap();
    let m = g.get_mesh(id).unwrap();
    assert_eq!(m.devices.len(), 3);
    assert_eq!(m.edges.len(), 2);
    assert_eq!(g.stats().active_meshes, 1);
    assert!(g.get_mesh(id + 1).is_none());
}

#[test]
fn mesh_default_topology_is_full_mesh() {
    let mut g = Gateway::new();
    let devs = vec!["A".to_string(), "B".to_string(), "C".to_string()];
    let id = g.create_mesh(devs, None).unwrap();
    let m = g.get_mesh(id).unwrap();
    assert_eq!(m.topology, Topology::FullMesh);
    assert_eq!(m.edges.len(), 3);
}

#[test]
fn mesh_empty_devices_rejected() {
    let mut g = Gateway::new();
    let r = g.create_mesh(Vec::new(), None);
    assert_eq!(r.err().unwrap(), GatewayError::InvalidInput);
    assert_eq!(g.stats().active_meshes, 0);
}

#[test]
fn stats_monotone_across_calls() {
    let mut g = Gateway::new();
    let mut snaps: Vec<StatsSnapshot> = vec![g.stats()];
    let id = g.connect("dev-1".to_string(), None, None).unwrap();
    snaps.push(g.stats());
    let _ = g.connect(String::new(), None, None);
    snaps.push(g.stats());
    let _ = g.record_sync(id, 3, 128, 900);
    snaps.push(g.stats());
    let _ = g.record_sync(777, 3, 128, 900);
    snaps.push(g.stats());
    let _ = g.transform("sdf-stream", "mqtt-bridge", b"[]");
    snaps.push(g.stats());
    let _ = g.transform("sdf-stream", "nope", b"[]");
    snaps.push(g.stats());
    let _ = g.create_mesh(vec!["A".to_string(), "B".to_string()], None);
    snaps.push(g.stats());
    let _ = g.close_connection(id);
    snaps.push(g.stats());
    for w in snaps.windows(2) {
        assert!(le(&w[0], &w[1]));
    }
}

#[test]
fn health_reports_uptime_and_ops() {
    let mut g = Gateway::new();
    let h0 = g.health(0, "1.2.0".to_string());
    assert_eq!(h0.status, "ok");
    assert_eq!(h0.version, "1.2.0");
    assert_eq!(h0.uptime_secs, 0);
    assert_eq!(h0.total_ops, 0);
    let id = g.connect("dev-1".to_string(), None, None).unwrap();
    g.record_sync(id, 1, 1, 1).unwrap();
    let h1 = g.health(5, "1.2.0".to_string());
    assert_eq!(h1.total_ops, 2);
    let h2 = g.health(9, "1.2.0".to_string());
    assert!(h1.uptime_secs <= h2.uptime_secs);
}

#[test]
fn error_kinds_and_status_codes() {
    assert_eq!(GatewayError::InvalidInput.kind(), "invalid_input");
    assert_eq!(GatewayError::InvalidInput.http_status(), 400);
    assert_eq!(GatewayError::UnknownConnection.kind(), "unknown_connection");
    assert_eq!(GatewayError::UnknownConnection.http_status(), 404);
    assert_eq!(GatewayError::UnsupportedProtocol.kind(), "unsupported_protocol");
    assert_eq!(GatewayError::UnsupportedProtocol.http_status(), 400);
    assert_eq!(GatewayError::Internal.kind(), "internal");
    assert_eq!(GatewayError::Internal.http_status(), 500);
}
