use agoranet_federation::network::{FederationNetwork, NetworkCommand, NetworkTopic};
use agoranet_federation::protocol::{
    CredentialLinkMessage, SyncMessage, ThreadMessage, ThreadSyncRequestMessage,
};
use agoranet_federation::store::StorageError;
use agoranet_federation::sync::SyncEngine;
use agoranet_federation::FederationError;

const NOW: i64 = 1_700_000_000;

fn started_net() -> FederationNetwork {
    let mut net = FederationNetwork::new().expect("new");
    net.start().expect("start");
    net
}

fn thread_announce_bytes(thread_id: &str, title: &str) -> Vec<u8> {
    SyncMessage::Thread(ThreadMessage {
        thread_id: thread_id.to_string(),
        title: title.to_string(),
        proposal_cid: None,
        created_at: NOW,
        author_did: "did:icn:remote".to_string(),
        signature: None,
    })
    .to_bytes()
}

fn link_announce_bytes(link_id: &str, thread_id: &str, cid: &str, by: &str) -> Vec<u8> {
    SyncMessage::CredentialLink(CredentialLinkMessage {
        link_id: link_id.to_string(),
        thread_id: thread_id.to_string(),
        credential_cid: cid.to_string(),
        linked_by: by.to_string(),
        created_at: NOW,
        signature: None,
    })
    .to_bytes()
}

#[test]
fn thread_announce_applies_once() {
    let mut engine = SyncEngine::new();
    let mut net = started_net();
    let bytes = thread_announce_bytes("t-1", "First title");

    engine.handle_message(&mut net, "peer", NetworkTopic::ThreadAnnounce, &bytes, NOW);
    let t = engine.get_thread("t-1").expect("created");
    assert_eq!(t.id, "t-1");
    assert_eq!(t.title, "First title");

    // Redelivery is a no-op: even an announce that now carries another title
    // leaves the stored row alone.
    let altered = thread_announce_bytes("t-1", "Another title");
    engine.handle_message(&mut net, "peer", NetworkTopic::ThreadAnnounce, &altered, NOW);
    let t = engine.get_thread("t-1").expect("still there");
    assert_eq!(t.title, "First title");

    // Exactly one row carries the id: creating it again collides.
    assert!(matches!(
        engine.create_local_thread("t-1".to_string(), "x".to_string(), None, NOW),
        Err(StorageError::Database(_))
    ));
}

#[test]
fn link_announce_applies_once() {
    let mut engine = SyncEngine::new();
    let mut net = started_net();
    let bytes = link_announce_bytes("l-1", "t-1", "cid-1", "did:icn:bob");

    engine.handle_message(&mut net, "peer", NetworkTopic::CredentialLinkAnnounce, &bytes, NOW);
    engine.handle_message(&mut net, "peer", NetworkTopic::CredentialLinkAnnounce, &bytes, NOW);

    let links = engine.get_links_for_thread("t-1").expect("links");
    assert_eq!(links.len(), 1);
    assert_eq!(links[0].id, "l-1");
    assert_eq!(links[0].credential_cid, "cid-1");
    assert_eq!(links[0].linked_by, "did:icn:bob");
}

#[test]
fn link_dedup_is_by_triple_not_by_id() {
    let mut engine = SyncEngine::new();
    let mut net = started_net();
    let first = link_announce_bytes("l-1", "t-1", "cid-1", "did:icn:bob");
    let second = link_announce_bytes("l-2", "t-1", "cid-1", "did:icn:bob");

    engine.handle_message(&mut net, "peer", NetworkTopic::CredentialLinkAnnounce, &first, NOW);
    engine.handle_message(&mut net, "peer", NetworkTopic::CredentialLinkAnnounce, &second, NOW);

    let links = engine.get_links_for_thread("t-1").expect("links");
    assert_eq!(links.len(), 1);
    assert_eq!(links[0].id, "l-1");
}

#[test]
fn malformed_bytes_mutate_nothing() {
    let mut engine = SyncEngine::new();
    let mut net = started_net();
    let valid = thread_announce_bytes("t-1", "Title");

    for topic in [
        NetworkTopic::ThreadAnnounce,
        NetworkTopic::CredentialLinkAnnounce,
        NetworkTopic::ThreadSyncRequest,
    ] {
        for n in 0..valid.len() {
            engine.handle_message(&mut net, "peer", topic, &valid[..n], NOW);
        }
        engine.handle_message(&mut net, "peer", topic, &[0xff; 32], NOW);
    }

    assert!(engine.get_thread("t-1").is_err());
    assert!(engine.get_links_for_thread("t-1").expect("links").is_empty());
    assert!(net.next_command().is_none());
}

#[test]
fn envelope_on_wrong_topic_is_dropped() {
    let mut engine = SyncEngine::new();
    let mut net = started_net();
    let bytes = thread_announce_bytes("t-1", "Title");

    engine.handle_message(&mut net, "peer", NetworkTopic::CredentialLinkAnnounce, &bytes, NOW);
    engine.handle_message(&mut net, "peer", NetworkTopic::ThreadSyncRequest, &bytes, NOW);

    assert!(engine.get_thread("t-1").is_err());
    assert!(net.next_command().is_none());
}

#[test]
fn sync_request_replays_thread_and_both_links() {
    let mut engine = SyncEngine::new();
    let mut net = started_net();
    engine
        .create_local_thread("t-1".to_string(), "Shared thread".to_string(), Some("cid-p".to_string()), NOW)
        .expect("thread");
    engine
        .create_local_credential_link(
            "l-1".to_string(),
            "t-1".to_string(),
            "cid-1".to_string(),
            "did:icn:bob".to_string(),
            NOW,
        )
        .expect("link 1");
    engine
        .create_local_credential_link(
            "l-2".to_string(),
            "t-1".to_string(),
            "cid-2".to_string(),
            "did:icn:carol".to_string(),
            NOW,
        )
        .expect("link 2");

    let request = SyncMessage::SyncRequest(ThreadSyncRequestMessage {
        thread_id: "t-1".to_string(),
        last_update: None,
        requester: "did:icn:carol".to_string(),
    })
    .to_bytes();
    engine.handle_message(&mut net, "peer", NetworkTopic::ThreadSyncRequest, &request, NOW + 5);

    // Exactly one thread announce, then one link announce per stored link.
    let mut published = Vec::new();
    while let Some(cmd) = net.next_command() {
        published.push(cmd);
    }
    assert_eq!(published.len(), 3);

    match &published[0] {
        NetworkCommand::Publish { topic, data } => {
            assert_eq!(*topic, NetworkTopic::ThreadAnnounce);
            match SyncMessage::from_bytes(data).expect("decode") {
                SyncMessage::Thread(m) => {
                    assert_eq!(m.thread_id, "t-1");
                    assert_eq!(m.title, "Shared thread");
                    assert_eq!(m.proposal_cid.as_deref(), Some("cid-p"));
                    assert_eq!(m.author_did, "did:icn:local");
                    assert_eq!(m.created_at, NOW + 5);
                },
                other => panic!("expected a thread announce, got {other:?}"),
            }
        },
        other => panic!("expected a publish, got {other:?}"),
    }

    for (k, (lid, cid, by)) in
        [("l-1", "cid-1", "did:icn:bob"), ("l-2", "cid-2", "did:icn:carol")].iter().enumerate()
    {
        match &published[1 + k] {
            NetworkCommand::Publish { topic, data } => {
                assert_eq!(*topic, NetworkTopic::CredentialLinkAnnounce);
                match SyncMessage::from_bytes(data).expect("decode") {
                    SyncMessage::CredentialLink(m) => {
                        assert_eq!(m.link_id, *lid);
                        assert_eq!(m.thread_id, "t-1");
                        assert_eq!(m.credential_cid, *cid);
                        assert_eq!(m.linked_by, *by);
                    },
                    other => panic!("expected a link announce, got {other:?}"),
                }
            },
            other => panic!("expected a publish, got {other:?}"),
        }
    }
}

#[test]
fn sync_request_for_unknown_thread_is_skipped() {
    let mut engine = SyncEngine::new();
    let mut net = started_net();
    let request = SyncMessage::SyncRequest(ThreadSyncRequestMessage {
        thread_id: "missing".to_string(),
        last_update: None,
        requester: "did:icn:carol".to_string(),
    })
    .to_bytes();
    engine.handle_message(&mut net, "peer", NetworkTopic::ThreadSyncRequest, &request, NOW);
    assert!(net.next_command().is_none());
}

#[test]
fn announce_thread_requires_a_stored_row() {
    let engine = SyncEngine::new();
    let mut net = started_net();
    assert!(matches!(
        engine.announce_thread(&mut net, "missing", NOW),
        Err(FederationError::Storage(StorageError::NotFound))
    ));
    assert!(net.next_command().is_none());
}

#[test]
fn announce_thread_publishes_the_stored_row() {
    let mut engine = SyncEngine::new();
    let mut net = started_net();
    engine
        .create_local_thread("t-9".to_string(), "Announce me".to_string(), None, NOW)
        .expect("thread");
    engine.announce_thread(&mut net, "t-9", NOW + 1).expect("announce");
    match net.next_command() {
        Some(NetworkCommand::Publish { topic, data }) => {
            assert_eq!(topic, NetworkTopic::ThreadAnnounce);
            match SyncMessage::from_bytes(&data).expect("decode") {
                SyncMessage::Thread(m) => {
                    assert_eq!(m.thread_id, "t-9");
                    assert_eq!(m.title, "Announce me");
                    assert_eq!(m.created_at, NOW + 1);
                    assert!(m.signature.is_none());
                },
                other => panic!("expected a thread announce, got {other:?}"),
            }
        },
        other => panic!("expected a publish, got {other:?}"),
    }
}

#[test]
fn announce_fails_cleanly_when_not_started() {
    let mut engine = SyncEngine::new();
    let mut net = FederationNetwork::new().expect("new");
    engine
        .create_local_thread("t-1".to_string(), "Title".to_string(), None, NOW)
        .expect("thread");
    assert!(matches!(
        engine.announce_thread(&mut net, "t-1", NOW),
        Err(FederationError::Network(_))
    ));
}

#[test]
fn announce_credential_link_finds_the_link() {
    let mut engine = SyncEngine::new();
    let mut net = started_net();
    engine
        .create_local_thread("t-1".to_string(), "Title".to_string(), None, NOW)
        .expect("thread");
    engine
        .create_local_credential_link(
            "l-1".to_string(),
            "t-1".to_string(),
            "cid-1".to_string(),
            "did:icn:bob".to_string(),
            NOW,
        )
        .expect("link");

    assert!(matches!(
        engine.announce_credential_link(&mut net, "t-1", "l-404", NOW),
        Err(FederationError::Storage(StorageError::NotFound))
    ));
    assert!(net.next_command().is_none());

    engine.announce_credential_link(&mut net, "t-1", "l-1", NOW + 2).expect("announce");
    match net.next_command() {
        Some(NetworkCommand::Publish { topic, data }) => {
            assert_eq!(topic, NetworkTopic::CredentialLinkAnnounce);
            match SyncMessage::from_bytes(&data).expect("decode") {
                SyncMessage::CredentialLink(m) => {
                    assert_eq!(m.link_id, "l-1");
                    assert_eq!(m.thread_id, "t-1");
                    assert_eq!(m.credential_cid, "cid-1");
                    assert_eq!(m.linked_by, "did:icn:bob");
                    assert_eq!(m.created_at, NOW + 2);
                },
                other => panic!("expected a link announce, got {other:?}"),
            }
        },
        other => panic!("expected a publish, got {other:?}"),
    }
}

#[test]
fn engine_start_and_stop_are_idempotent() {
    let mut engine = SyncEngine::new();
    engine.start().expect("start");
    engine.start().expect("start again");
    engine.stop().expect("stop");
    engine.stop().expect("stop again");
}
