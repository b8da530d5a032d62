use gateway_engine::{ProtocolRegistry, build_envelope};

#[test]
fn default_catalog_lists_three_protocols() {
    let reg = ProtocolRegistry::with_default_entries();
    assert_eq!(reg.len(), 3);
    assert_eq!(reg.entry_at(0).name, "sdf-stream");
    assert_eq!(reg.entry_at(1).name, "mqtt-bridge");
    assert_eq!(reg.entry_at(2).name, "grpc-relay");
    assert_eq!(reg.entry_at(0).latency_us, 8_000);
    assert_eq!(reg.entry_at(0).throughput_kbps, 100_000);
    assert_eq!(reg.entry_at(1).latency_us, 15_000);
    assert_eq!(reg.entry_at(2).throughput_kbps, 500_000);
}

#[test]
fn lookup_finds_listed_protocols_only() {
    let reg = ProtocolRegistry::with_default_entries();
    let p = reg.lookup("mqtt-bridge").unwrap();
    assert_eq!(p.name, "mqtt-bridge");
    assert_eq!(p.latency_us, 15_000);
    assert!(reg.lookup("telegraph").is_none());
    assert!(reg.contains("grpc-relay"));
    assert!(!reg.contains(""));
}

#[test]
fn envelope_wraps_payload_bytes() {
    let out = build_envelope(b"src", b"tgt", b"[1,2]");
    assert_eq!(out, b"{\"target\":\"tgt\",\"source\":\"src\",\"body\":[1,2]}".to_vec());
}

#[test]
fn envelope_with_empty_payload() {
    let out = build_envelope(b"a", b"b", b"");
    assert_eq!(out, b"{\"target\":\"b\",\"source\":\"a\",\"body\":}".to_vec());
}
