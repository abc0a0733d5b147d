use agoranet_federation::facade::Federation;
use agoranet_federation::network::{NetworkCommand, NetworkTopic};
use agoranet_federation::protocol::SyncMessage;
use agoranet_federation::store::StorageError;
use agoranet_federation::FederationError;

const NOW: i64 = 1_700_000_000;

fn drain_commands(fed: &mut Federation) -> Vec<NetworkCommand> {
    let mut out = Vec::new();
    while let Some(cmd) = fed.next_command() {
        out.push(cmd);
    }
    out
}

#[test]
fn start_dials_the_bootstrap_set() {
    let mut fed = Federation::new().expect("new");
    fed.start().expect("start");
    let cmds = drain_commands(&mut fed);
    let dials: Vec<String> = cmds
        .into_iter()
        .filter_map(|c| match c {
            NetworkCommand::Connect(addr) => Some(addr),
            _ => None,
        })
        .collect();
    assert_eq!(dials.len(), 2);
    assert!(dials[0].starts_with("/ip4/"));
    assert!(dials[1].starts_with("/ip4/"));
}

#[test]
fn discovery_tick_redials_the_full_set() {
    let mut fed = Federation::new().expect("new");
    fed.start().expect("start");
    drain_commands(&mut fed);
    fed.discovery_tick();
    let cmds = drain_commands(&mut fed);
    assert_eq!(cmds.len(), 2);
    assert!(cmds.iter().all(|c| matches!(c, NetworkCommand::Connect(_))));
}

#[test]
fn stop_keeps_peers_queryable_and_start_again_succeeds() {
    let mut fed = Federation::new().expect("new");
    assert!(!fed.is_running());
    fed.start().expect("start");
    assert!(fed.is_running());
    fed.notify_connection_established("peer-a".to_string());
    fed.stop().expect("stop");
    assert!(!fed.is_running());
    // Still queryable after the stop, with the peer set intact.
    assert_eq!(fed.known_peers().expect("peers"), vec!["peer-a".to_string()]);
    // Restart-safe.
    fed.start().expect("second start");
    assert!(fed.is_running());
    assert_eq!(fed.known_peers().expect("peers"), vec!["peer-a".to_string()]);
}

#[test]
fn announce_thread_needs_a_stored_thread_and_a_started_service() {
    let mut fed = Federation::new().expect("new");
    fed.start().expect("start");
    assert!(matches!(
        fed.announce_thread("missing"),
        Err(FederationError::Storage(StorageError::NotFound))
    ));
    fed.create_local_thread("t-1".to_string(), "Title".to_string(), None).expect("thread");
    fed.stop().expect("stop");
    assert!(matches!(fed.announce_thread("t-1"), Err(FederationError::Network(_))));
    fed.start().expect("restart");
    fed.announce_thread("t-1").expect("announce");
}

#[test]
fn local_writes_and_reads_round_trip() {
    let mut fed = Federation::new().expect("new");
    fed.create_local_thread("t-1".to_string(), "Title".to_string(), Some("cid-p".to_string()))
        .expect("thread");
    let t = fed.get_thread("t-1").expect("get");
    assert_eq!(t.title, "Title");
    assert_eq!(t.proposal_cid.as_deref(), Some("cid-p"));

    fed.create_local_credential_link(
        "l-1".to_string(),
        "t-1".to_string(),
        "cid-1".to_string(),
        "did:icn:bob".to_string(),
    )
    .expect("link");
    // The same triple under another id does not create a second row.
    let again = fed
        .create_local_credential_link(
            "l-2".to_string(),
            "t-1".to_string(),
            "cid-1".to_string(),
            "did:icn:bob".to_string(),
        )
        .expect("dedup");
    assert_eq!(again.id, "l-1");
    assert_eq!(fed.get_links_for_thread("t-1").expect("links").len(), 1);
}

#[test]
fn two_nodes_converge_on_one_thread() {
    let mut node_a = Federation::new().expect("node a");
    let mut node_b = Federation::new().expect("node b");
    node_a.start().expect("start a");
    node_b.start().expect("start b");
    drain_commands(&mut node_a);
    drain_commands(&mut node_b);

    // Node A creates and announces a thread.
    node_a
        .create_local_thread(
            "t1-uuid".to_string(),
            "Guardian Recovery Proposal".to_string(),
            None,
        )
        .expect("create");
    node_a.announce_thread("t1-uuid").expect("announce");

    // The overlay carries the published envelope to node B.
    let announce = match drain_commands(&mut node_a).pop() {
        Some(NetworkCommand::Publish { topic, data }) => {
            assert_eq!(topic, NetworkTopic::ThreadAnnounce);
            data
        },
        other => panic!("expected a publish, got {other:?}"),
    };
    node_b.notify_message("peer-a".to_string(), "icn/threads/announce/v1", announce.clone());
    assert!(node_b.process_next_event(NOW));

    // Node B materialized the thread with matching id and title.
    let t = node_b.get_thread("t1-uuid").expect("replicated");
    assert_eq!(t.id, "t1-uuid");
    assert_eq!(t.title, "Guardian Recovery Proposal");

    // Redelivery leaves no duplicate row.
    node_b.notify_message("peer-a".to_string(), "icn/threads/announce/v1", announce);
    assert!(node_b.process_next_event(NOW));
    let t = node_b.get_thread("t1-uuid").expect("still one row");
    assert_eq!(t.title, "Guardian Recovery Proposal");
    assert!(matches!(
        node_b.create_local_thread("t1-uuid".to_string(), "x".to_string(), None),
        Err(StorageError::Database(_))
    ));
}

#[test]
fn sync_request_round_trips_between_nodes() {
    let mut node_a = Federation::new().expect("node a");
    let mut node_b = Federation::new().expect("node b");
    node_a.start().expect("start a");
    node_b.start().expect("start b");
    drain_commands(&mut node_a);
    drain_commands(&mut node_b);

    node_a
        .create_local_thread("t-1".to_string(), "Catch me up".to_string(), None)
        .expect("create");
    node_a
        .create_local_credential_link(
            "l-1".to_string(),
            "t-1".to_string(),
            "cid-1".to_string(),
            "did:icn:bob".to_string(),
        )
        .expect("link");

    // Node B asks for the thread; node A answers with the full replay.
    let request = SyncMessage::SyncRequest(
        agoranet_federation::protocol::ThreadSyncRequestMessage::new(
            "t-1".to_string(),
            None,
            "did:icn:node-b".to_string(),
        ),
    )
    .to_bytes();
    node_a.notify_message("peer-b".to_string(), "icn/threads/sync/v1", request);
    assert!(node_a.process_next_event(NOW));

    let replay = drain_commands(&mut node_a);
    assert_eq!(replay.len(), 2);

    // Node B applies the replay and converges.
    for cmd in replay {
        match cmd {
            NetworkCommand::Publish { topic, data } => {
                node_b.notify_message("peer-a".to_string(), topic.as_str(), data);
                assert!(node_b.process_next_event(NOW));
            },
            other => panic!("expected a publish, got {other:?}"),
        }
    }
    assert_eq!(node_b.get_thread("t-1").expect("thread").title, "Catch me up");
    let links = node_b.get_links_for_thread("t-1").expect("links");
    assert_eq!(links.len(), 1);
    assert_eq!(links[0].id, "l-1");
}

#[test]
fn peer_lifecycle_updates_the_peer_set() {
    let mut fed = Federation::new().expect("new");
    fed.start().expect("start");
    fed.notify_connection_established("peer-a".to_string());
    assert_eq!(fed.known_peers().expect("peers"), vec!["peer-a".to_string()]);
    fed.notify_connection_closed("peer-a".to_string());
    assert!(fed.known_peers().expect("peers").is_empty());
}
