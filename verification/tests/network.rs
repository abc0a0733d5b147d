use agoranet_federation::network::{
    FederationNetwork, NetworkCommand, NetworkEvent, NetworkTopic,
};

#[test]
fn topic_wire_names_are_stable() {
    assert_eq!(NetworkTopic::ThreadAnnounce.as_str(), "icn/threads/announce/v1");
    assert_eq!(NetworkTopic::CredentialLinkAnnounce.as_str(), "icn/links/announce/v1");
    assert_eq!(NetworkTopic::ThreadSyncRequest.as_str(), "icn/threads/sync/v1");
}

#[test]
fn wire_name_routing_is_total() {
    assert_eq!(
        NetworkTopic::from_wire("icn/threads/announce/v1"),
        Some(NetworkTopic::ThreadAnnounce)
    );
    assert_eq!(
        NetworkTopic::from_wire("icn/links/announce/v1"),
        Some(NetworkTopic::CredentialLinkAnnounce)
    );
    assert_eq!(
        NetworkTopic::from_wire("icn/threads/sync/v1"),
        Some(NetworkTopic::ThreadSyncRequest)
    );
    assert_eq!(NetworkTopic::from_wire(""), None);
    assert_eq!(NetworkTopic::from_wire("icn/threads/announce/v2"), None);
    assert_eq!(NetworkTopic::from_wire("icn/threads/announce/v1 "), None);
    assert_eq!(NetworkTopic::from_wire("unrelated"), None);
}

#[test]
fn connect_then_disconnect_leaves_no_peer() {
    let mut net = FederationNetwork::new().expect("new");
    net.notify_connection_established("peer-a".to_string());
    assert_eq!(net.known_peers().expect("peers"), vec!["peer-a".to_string()]);
    net.notify_connection_closed("peer-a".to_string());
    assert!(net.known_peers().expect("peers").is_empty());
}

#[test]
fn two_connects_one_disconnect_leaves_one_peer() {
    let mut net = FederationNetwork::new().expect("new");
    net.notify_connection_established("peer-a".to_string());
    net.notify_connection_established("peer-b".to_string());
    net.notify_connection_closed("peer-a".to_string());
    assert_eq!(net.known_peers().expect("peers"), vec!["peer-b".to_string()]);
}

#[test]
fn repeated_connect_is_recorded_once() {
    let mut net = FederationNetwork::new().expect("new");
    net.notify_connection_established("peer-a".to_string());
    net.notify_connection_established("peer-a".to_string());
    assert_eq!(net.known_peers().expect("peers").len(), 1);
    net.notify_connection_closed("peer-a".to_string());
    assert!(net.known_peers().expect("peers").is_empty());
}

#[test]
fn disconnect_of_unknown_peer_changes_nothing() {
    let mut net = FederationNetwork::new().expect("new");
    net.notify_connection_established("peer-a".to_string());
    net.notify_connection_closed("peer-b".to_string());
    assert_eq!(net.known_peers().expect("peers"), vec!["peer-a".to_string()]);
}

#[test]
fn publish_fails_before_start() {
    let mut net = FederationNetwork::new().expect("new");
    assert!(net.publish(NetworkTopic::ThreadAnnounce, vec![1, 2, 3]).is_err());
    assert!(net.connect("/ip4/127.0.0.1/tcp/4001".to_string()).is_err());
    assert!(net.disconnect("peer-a".to_string()).is_err());
}

#[test]
fn publish_queues_a_command_in_order() {
    let mut net = FederationNetwork::new().expect("new");
    net.start().expect("start");
    net.publish(NetworkTopic::ThreadAnnounce, vec![1, 2, 3]).expect("publish");
    net.connect("/ip4/127.0.0.1/tcp/4001".to_string()).expect("connect");
    match net.next_command() {
        Some(NetworkCommand::Publish { topic, data }) => {
            assert_eq!(topic, NetworkTopic::ThreadAnnounce);
            assert_eq!(data, vec![1, 2, 3]);
        },
        other => panic!("expected a publish command, got {other:?}"),
    }
    match net.next_command() {
        Some(NetworkCommand::Connect(addr)) => {
            assert_eq!(addr, "/ip4/127.0.0.1/tcp/4001");
        },
        other => panic!("expected a connect command, got {other:?}"),
    }
    assert!(net.next_command().is_none());
}

#[test]
fn start_is_idempotent() {
    let mut net = FederationNetwork::new().expect("new");
    net.start().expect("start");
    net.publish(NetworkTopic::ThreadAnnounce, vec![9]).expect("publish");
    net.start().expect("second start");
    // The queued command survives the redundant start.
    assert!(matches!(net.next_command(), Some(NetworkCommand::Publish { .. })));
}

#[test]
fn stop_queues_stop_and_refuses_traffic() {
    let mut net = FederationNetwork::new().expect("new");
    net.start().expect("start");
    net.stop().expect("stop");
    assert!(net.publish(NetworkTopic::ThreadAnnounce, vec![1]).is_err());
    assert!(matches!(net.next_command(), Some(NetworkCommand::Stop)));
    assert!(net.next_command().is_none());
}

#[test]
fn peers_survive_a_stop() {
    let mut net = FederationNetwork::new().expect("new");
    net.start().expect("start");
    net.notify_connection_established("peer-a".to_string());
    net.stop().expect("stop");
    assert_eq!(net.known_peers().expect("peers"), vec!["peer-a".to_string()]);
}

#[test]
fn events_are_delivered_in_order_and_only_while_started() {
    let mut net = FederationNetwork::new().expect("new");
    assert!(net.next_event().is_none());
    net.start().expect("start");
    net.notify_message("peer-a".to_string(), "icn/threads/announce/v1", vec![5]);
    net.notify_connection_established("peer-b".to_string());
    match net.next_event() {
        Some(NetworkEvent::Message { peer_id, topic, data }) => {
            assert_eq!(peer_id, "peer-a");
            assert_eq!(topic, NetworkTopic::ThreadAnnounce);
            assert_eq!(data, vec![5]);
        },
        other => panic!("expected a message event, got {other:?}"),
    }
    assert!(matches!(net.next_event(), Some(NetworkEvent::PeerConnected(p)) if p == "peer-b"));
    assert!(net.next_event().is_none());
}

#[test]
fn message_on_unknown_topic_is_dropped_upstream() {
    let mut net = FederationNetwork::new().expect("new");
    net.start().expect("start");
    net.notify_message("peer-a".to_string(), "icn/unknown/v1", vec![5]);
    assert!(net.next_event().is_none());
}

#[test]
fn no_events_after_stop() {
    let mut net = FederationNetwork::new().expect("new");
    net.start().expect("start");
    net.notify_message("peer-a".to_string(), "icn/threads/sync/v1", vec![5]);
    net.stop().expect("stop");
    assert!(net.next_event().is_none());
}
