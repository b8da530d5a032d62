use gateway_engine::{ConnStatus, ConnectionTable, GatewayError};

#[test]
fn open_issues_sequential_ids() {
    let mut t = ConnectionTable::new();
    assert_eq!(t.next_id(), 0);
    let a = t.open(
        "dev-a".to_string(),
        "sdf-stream".to_string(),
        "us-east-1".to_string(),
        "wss://gateway.alice-platform.com/us-east-1".to_string(),
    );
    let b = t.open(
        "dev-b".to_string(),
        "sdf-stream".to_string(),
        "us-east-1".to_string(),
        "wss://gateway.alice-platform.com/us-east-1".to_string(),
    );
    assert_eq!(a, 0);
    assert_eq!(b, 1);
    assert_eq!(t.len(), 2);
    assert_eq!(t.next_id(), 2);
}

#[test]
fn get_finds_open_connections() {
    let mut t = ConnectionTable::new();
    let id = t.open(
        "dev-a".to_string(),
        "grpc-relay".to_string(),
        "eu-west-2".to_string(),
        "wss://gateway.alice-platform.com/eu-west-2".to_string(),
    );
    let c = t.get(id).unwrap();
    assert_eq!(c.id, id);
    assert_eq!(c.device_id, "dev-a");
    assert_eq!(c.status, ConnStatus::Connected);
    assert!(t.get(id + 1).is_none());
}

#[test]
fn close_is_sticky_but_keeps_the_id() {
    let mut t = ConnectionTable::new();
    let id = t.open(
        "dev-a".to_string(),
        "sdf-stream".to_string(),
        "us-east-1".to_string(),
        "wss://gateway.alice-platform.com/us-east-1".to_string(),
    );
    assert!(t.close(id).is_ok());
    assert_eq!(t.get(id).unwrap().status, ConnStatus::Closed);
    // The id stays issued: the next connection still gets a fresh one.
    let id2 = t.open(
        "dev-b".to_string(),
        "sdf-stream".to_string(),
        "us-east-1".to_string(),
        "wss://gateway.alice-platform.com/us-east-1".to_string(),
    );
    assert_ne!(id, id2);
    assert_eq!(t.close(42), Err(GatewayError::UnknownConnection));
}

#[test]
fn status_names() {
    assert_eq!(ConnStatus::Connecting.name(), "connecting");
    assert_eq!(ConnStatus::Connected.name(), "connected");
    assert_eq!(ConnStatus::Closed.name(), "closed");
}
