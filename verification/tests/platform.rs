use agoranet_federation::auth::{check_permission, Permission};
use agoranet_federation::health::health_summary;
use agoranet_federation::models::{Thread, ThreadStatus};
use agoranet_federation::network::{FederationNetwork, NetworkCommand, NetworkTopic};
use agoranet_federation::protocol::SyncMessage;
use agoranet_federation::runtime::{handle_runtime_event, RuntimeError, RuntimeEvent};
use agoranet_federation::sync::SyncEngine;

const NOW: i64 = 1_700_000_000;

fn started_net() -> FederationNetwork {
    let mut net = FederationNetwork::new().expect("new");
    net.start().expect("start");
    net
}

#[test]
fn proposal_created_makes_a_thread_and_announces_it() {
    let mut engine = SyncEngine::new();
    let mut net = started_net();
    let event = RuntimeEvent::ProposalCreated {
        proposal_cid: "cid-p".to_string(),
        title: "A proposal".to_string(),
        created_by: "did:icn:alice".to_string(),
        timestamp: NOW - 10,
    };
    handle_runtime_event(&event, &mut engine, &mut net, "fresh-id".to_string(), NOW)
        .expect("handled");

    let t = engine.get_thread("fresh-id").expect("thread");
    assert_eq!(t.title, "A proposal");
    assert_eq!(t.proposal_cid.as_deref(), Some("cid-p"));

    match net.next_command() {
        Some(NetworkCommand::Publish { topic, data }) => {
            assert_eq!(topic, NetworkTopic::ThreadAnnounce);
            match SyncMessage::from_bytes(&data).expect("decode") {
                SyncMessage::Thread(m) => {
                    assert_eq!(m.thread_id, "fresh-id");
                    assert_eq!(m.title, "A proposal");
                },
                other => panic!("expected a thread announce, got {other:?}"),
            }
        },
        other => panic!("expected a publish, got {other:?}"),
    }
}

#[test]
fn proposal_created_with_taken_id_is_an_error() {
    let mut engine = SyncEngine::new();
    let mut net = started_net();
    engine
        .create_local_thread("taken".to_string(), "Existing".to_string(), None, NOW)
        .expect("seed");
    let event = RuntimeEvent::ProposalCreated {
        proposal_cid: "cid-p".to_string(),
        title: "A proposal".to_string(),
        created_by: "did:icn:alice".to_string(),
        timestamp: NOW,
    };
    assert!(matches!(
        handle_runtime_event(&event, &mut engine, &mut net, "taken".to_string(), NOW),
        Err(RuntimeError::Storage(_))
    ));
    assert!(net.next_command().is_none());
}

#[test]
fn credential_issued_is_ignored() {
    let mut engine = SyncEngine::new();
    let mut net = started_net();
    let event = RuntimeEvent::CredentialIssued {
        credential_cid: "cid-c".to_string(),
        issuer_did: "did:icn:issuer".to_string(),
        subject_did: "did:icn:subject".to_string(),
        credential_type: "vote".to_string(),
        timestamp: NOW,
    };
    handle_runtime_event(&event, &mut engine, &mut net, "unused-id".to_string(), NOW)
        .expect("handled");
    assert!(net.next_command().is_none());
    assert!(engine.get_thread("unused-id").is_err());
}

#[test]
fn proposal_finalized_retitles_and_reannounces() {
    let mut engine = SyncEngine::new();
    let mut net = started_net();
    engine
        .create_local_thread(
            "t-1".to_string(),
            "Budget vote".to_string(),
            Some("cid-p".to_string()),
            NOW,
        )
        .expect("seed");

    let event = RuntimeEvent::ProposalFinalized {
        proposal_cid: "cid-p".to_string(),
        approved: true,
        timestamp: NOW + 50,
    };
    handle_runtime_event(&event, &mut engine, &mut net, "unused-id".to_string(), NOW + 60)
        .expect("handled");

    let t = engine.get_thread("t-1").expect("thread");
    assert_eq!(t.title, "[APPROVED] Budget vote");

    match net.next_command() {
        Some(NetworkCommand::Publish { topic, data }) => {
            assert_eq!(topic, NetworkTopic::ThreadAnnounce);
            match SyncMessage::from_bytes(&data).expect("decode") {
                SyncMessage::Thread(m) => assert_eq!(m.title, "[APPROVED] Budget vote"),
                other => panic!("expected a thread announce, got {other:?}"),
            }
        },
        other => panic!("expected a publish, got {other:?}"),
    }
}

#[test]
fn proposal_finalized_rejection_marks_the_title() {
    let mut engine = SyncEngine::new();
    let mut net = started_net();
    engine
        .create_local_thread(
            "t-1".to_string(),
            "Budget vote".to_string(),
            Some("cid-p".to_string()),
            NOW,
        )
        .expect("seed");
    let event = RuntimeEvent::ProposalFinalized {
        proposal_cid: "cid-p".to_string(),
        approved: false,
        timestamp: NOW,
    };
    handle_runtime_event(&event, &mut engine, &mut net, "unused-id".to_string(), NOW)
        .expect("handled");
    assert_eq!(engine.get_thread("t-1").expect("thread").title, "[REJECTED] Budget vote");
}

#[test]
fn proposal_finalized_without_a_thread_is_skipped() {
    let mut engine = SyncEngine::new();
    let mut net = started_net();
    let event = RuntimeEvent::ProposalFinalized {
        proposal_cid: "cid-unknown".to_string(),
        approved: true,
        timestamp: NOW,
    };
    handle_runtime_event(&event, &mut engine, &mut net, "unused-id".to_string(), NOW)
        .expect("handled");
    assert!(net.next_command().is_none());
}

#[test]
fn thread_model_starts_open_and_stamped() {
    let t = Thread::new(
        "m-1".to_string(),
        "Model thread".to_string(),
        "Body".to_string(),
        "did:icn:alice".to_string(),
        Some("prop-1".to_string()),
    );
    assert_eq!(t.status, ThreadStatus::Open);
    assert_eq!(t.created_at, t.updated_at);
    assert!(t.tags.is_empty());
    assert!(t.metadata.is_empty());
    assert_eq!(t.federation_id, None);
}

#[test]
fn add_tag_holds_each_tag_once() {
    let mut t = Thread::new(
        "m-1".to_string(),
        "Model thread".to_string(),
        "Body".to_string(),
        "did:icn:alice".to_string(),
        None,
    );
    t.add_tag("governance".to_string());
    t.add_tag("budget".to_string());
    t.add_tag("governance".to_string());
    assert_eq!(t.tags, vec!["governance".to_string(), "budget".to_string()]);
}

#[test]
fn set_metadata_overwrites_in_place() {
    let mut t = Thread::new(
        "m-1".to_string(),
        "Model thread".to_string(),
        "Body".to_string(),
        "did:icn:alice".to_string(),
        None,
    );
    t.set_metadata("region".to_string(), "north".to_string());
    t.set_metadata("quorum".to_string(), "7".to_string());
    t.set_metadata("region".to_string(), "south".to_string());
    assert_eq!(
        t.metadata,
        vec![
            ("region".to_string(), "south".to_string()),
            ("quorum".to_string(), "7".to_string()),
        ]
    );
}

#[test]
fn health_summary_reports_ok_and_degraded() {
    let ok = health_summary(true, Some(true), Some(true), "1.0.0".to_string());
    assert_eq!(ok.status, "ok");
    assert!(ok.database);

    let no_db = health_summary(false, None, None, "1.0.0".to_string());
    assert_eq!(no_db.status, "degraded");

    let fed_down = health_summary(true, None, Some(false), "1.0.0".to_string());
    assert_eq!(fed_down.status, "degraded");

    let rt_down = health_summary(true, Some(false), None, "1.0.0".to_string());
    assert_eq!(rt_down.status, "degraded");

    let disabled = health_summary(true, None, None, "1.0.0".to_string());
    assert_eq!(disabled.status, "ok");
}

#[test]
fn permissions_follow_the_policy() {
    for p in [
        Permission::ReadThread,
        Permission::CreateThread,
        Permission::PostMessage,
        Permission::ReactToMessage,
    ] {
        assert!(check_permission(p, false, false));
    }
    assert!(!check_permission(Permission::LinkCredential, false, false));
    assert!(check_permission(Permission::LinkCredential, true, false));
    assert!(check_permission(Permission::LinkCredential, false, true));
    assert!(!check_permission(Permission::ModerateContent, true, false));
    assert!(check_permission(Permission::ModerateContent, false, true));
}
