use netbird_embed::{ConnectionState, Peer, Status};

fn peer(state: ConnectionState) -> Peer {
    Peer {
        ip: "100.64.0.2".to_string(),
        pub_key: "key".to_string(),
        fqdn: "peer.netbird.cloud".to_string(),
        conn_status: state,
        relayed: false,
        latency: "12ms".to_string(),
    }
}

#[test]
fn state_names() {
    assert_eq!(ConnectionState::from_name("connected"), ConnectionState::Connected);
    assert_eq!(ConnectionState::from_name("connecting"), ConnectionState::Connecting);
    assert_eq!(ConnectionState::from_name("disconnected"), ConnectionState::Disconnected);
}

#[test]
fn other_state_names_are_unknown() {
    assert_eq!(ConnectionState::from_name("unknown"), ConnectionState::Unknown);
    assert_eq!(ConnectionState::from_name("Connected"), ConnectionState::Unknown);
    assert_eq!(ConnectionState::from_name("idle"), ConnectionState::Unknown);
    assert_eq!(ConnectionState::from_name(""), ConnectionState::Unknown);
    assert_eq!(ConnectionState::from_name("connected "), ConnectionState::Unknown);
}

#[test]
fn default_state_is_disconnected() {
    assert_eq!(ConnectionState::default(), ConnectionState::Disconnected);
}

#[test]
fn peer_is_connected_only_when_connected() {
    assert!(peer(ConnectionState::Connected).is_connected());
    assert!(!peer(ConnectionState::Connecting).is_connected());
    assert!(!peer(ConnectionState::Disconnected).is_connected());
    assert!(!peer(ConnectionState::Unknown).is_connected());
}

#[test]
fn status_holds_peers() {
    let status = Status {
        state: ConnectionState::Connected,
        ip: "100.64.0.1".to_string(),
        pub_key: "local".to_string(),
        fqdn: String::new(),
        management_state: ConnectionState::Connected,
        signal_state: ConnectionState::Connecting,
        peers: vec![peer(ConnectionState::Connected), peer(ConnectionState::Disconnected)],
        error: None,
    };
    let copy = status.clone();
    assert_eq!(copy.peers.iter().filter(|p| p.is_connected()).count(), 1);
    assert_eq!(copy.management_state, ConnectionState::Connected);
}
