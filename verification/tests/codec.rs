use agoranet_federation::protocol::{
    CredentialLinkMessage, SyncMessage, ThreadMessage, ThreadSyncRequestMessage,
};

fn sample_thread_message() -> ThreadMessage {
    ThreadMessage {
        thread_id: "11111111-2222-3333-4444-555555555555".to_string(),
        title: "Guardian Recovery Proposal".to_string(),
        proposal_cid: Some("bafybeigdyrzt5sfp7udm7hu76uh7y26nf3efuylqabf3oclgtqy55fbzdi".to_string()),
        created_at: 1_700_000_000,
        author_did: "did:icn:alice".to_string(),
        signature: Some("sig-base64".to_string()),
    }
}

fn sample_link_message() -> CredentialLinkMessage {
    CredentialLinkMessage {
        link_id: "aaaaaaaa-bbbb-cccc-dddd-eeeeeeeeeeee".to_string(),
        thread_id: "11111111-2222-3333-4444-555555555555".to_string(),
        credential_cid: "bafkreihdwdcefgh4dqkjv67uzcmw7ojee6xedzdetojuzjevtenxquvyku".to_string(),
        linked_by: "did:icn:bob".to_string(),
        created_at: 1_700_000_100,
        signature: None,
    }
}

fn sample_sync_request() -> ThreadSyncRequestMessage {
    ThreadSyncRequestMessage {
        thread_id: "11111111-2222-3333-4444-555555555555".to_string(),
        last_update: Some(1_699_999_000),
        requester: "did:icn:carol".to_string(),
    }
}

#[test]
fn round_trip_thread_announce() {
    let msg = SyncMessage::Thread(sample_thread_message());
    let bytes = msg.to_bytes();
    let decoded = SyncMessage::from_bytes(bytes.as_slice()).expect("decode");
    assert_eq!(decoded, msg);
}

#[test]
fn round_trip_credential_link_announce() {
    let msg = SyncMessage::CredentialLink(sample_link_message());
    let bytes = msg.to_bytes();
    let decoded = SyncMessage::from_bytes(bytes.as_slice()).expect("decode");
    assert_eq!(decoded, msg);
}

#[test]
fn round_trip_sync_request() {
    let msg = SyncMessage::SyncRequest(sample_sync_request());
    let bytes = msg.to_bytes();
    let decoded = SyncMessage::from_bytes(bytes.as_slice()).expect("decode");
    assert_eq!(decoded, msg);
}

#[test]
fn round_trip_sync_request_without_last_update() {
    let msg = SyncMessage::SyncRequest(ThreadSyncRequestMessage {
        thread_id: String::new(),
        last_update: None,
        requester: "did:icn:carol".to_string(),
    });
    let bytes = msg.to_bytes();
    let decoded = SyncMessage::from_bytes(bytes.as_slice()).expect("decode");
    assert_eq!(decoded, msg);
}

#[test]
fn round_trip_without_optional_fields() {
    let msg = SyncMessage::Thread(ThreadMessage {
        thread_id: "t".to_string(),
        title: String::new(),
        proposal_cid: None,
        created_at: -5,
        author_did: "did:icn:local".to_string(),
        signature: None,
    });
    let bytes = msg.to_bytes();
    let decoded = SyncMessage::from_bytes(bytes.as_slice()).expect("decode");
    assert_eq!(decoded, msg);
}

#[test]
fn round_trip_non_ascii_fields() {
    let msg = SyncMessage::Thread(ThreadMessage {
        thread_id: "11111111-2222-3333-4444-555555555555".to_string(),
        title: "Grundsatzbeschlu\u{00df} \u{2014} \u{6c7a}\u{8b70} \u{1f5f3}".to_string(),
        proposal_cid: None,
        created_at: i64::MIN,
        author_did: "did:icn:\u{00e9}lise".to_string(),
        signature: Some("\u{2713}".to_string()),
    });
    let bytes = msg.to_bytes();
    let decoded = SyncMessage::from_bytes(bytes.as_slice()).expect("decode");
    assert_eq!(decoded, msg);
}

#[test]
fn extreme_timestamps_round_trip() {
    for ts in [i64::MIN, -1, 0, 1, i64::MAX] {
        let msg = SyncMessage::SyncRequest(ThreadSyncRequestMessage {
            thread_id: "t".to_string(),
            last_update: Some(ts),
            requester: "r".to_string(),
        });
        let bytes = msg.to_bytes();
        let decoded = SyncMessage::from_bytes(bytes.as_slice()).expect("decode");
        assert_eq!(decoded, msg);
    }
}

#[test]
fn encoding_layout_is_stable() {
    let msg = SyncMessage::SyncRequest(ThreadSyncRequestMessage {
        thread_id: "ab".to_string(),
        last_update: Some(1),
        requester: "c".to_string(),
    });
    let expected: Vec<u8> = vec![
        3, // discriminator: sync request
        2, 0, 0, 0, 0, 0, 0, 0, // thread_id byte length
        b'a', b'b', // thread_id
        1, // last_update present
        1, 0, 0, 0, 0, 0, 0, 0, // last_update
        1, 0, 0, 0, 0, 0, 0, 0, // requester byte length
        b'c', // requester
    ];
    assert_eq!(msg.to_bytes(), expected);
}

#[test]
fn every_strict_prefix_is_rejected() {
    let msg = SyncMessage::Thread(sample_thread_message());
    let bytes = msg.to_bytes();
    for n in 0..bytes.len() {
        assert!(SyncMessage::from_bytes(&bytes[..n]).is_err(), "prefix of {n} bytes accepted");
    }
}

#[test]
fn trailing_bytes_are_rejected() {
    let msg = SyncMessage::SyncRequest(sample_sync_request());
    let mut bytes = msg.to_bytes();
    bytes.push(0);
    assert!(SyncMessage::from_bytes(bytes.as_slice()).is_err());
}

#[test]
fn unknown_discriminator_is_rejected() {
    let msg = SyncMessage::Thread(sample_thread_message());
    let mut bytes = msg.to_bytes();
    bytes[0] = 9;
    assert!(SyncMessage::from_bytes(bytes.as_slice()).is_err());
}

#[test]
fn garbage_bytes_are_rejected() {
    assert!(SyncMessage::from_bytes(&[]).is_err());
    assert!(SyncMessage::from_bytes(&[0xff; 64]).is_err());
    assert!(SyncMessage::from_bytes(&[1]).is_err());
}

#[test]
fn invalid_utf8_in_field_is_rejected() {
    let msg = SyncMessage::SyncRequest(ThreadSyncRequestMessage {
        thread_id: "abcd".to_string(),
        last_update: None,
        requester: "r".to_string(),
    });
    let mut bytes = msg.to_bytes();
    // The first field payload starts after the discriminator and the
    // eight-byte length: corrupt it into an invalid UTF-8 sequence.
    bytes[9] = 0xff;
    assert!(SyncMessage::from_bytes(bytes.as_slice()).is_err());
}

#[test]
fn bare_message_round_trips() {
    let t = sample_thread_message();
    let decoded = ThreadMessage::from_bytes(t.to_bytes().as_slice()).expect("decode");
    assert_eq!(decoded, t);

    let l = sample_link_message();
    let decoded = CredentialLinkMessage::from_bytes(l.to_bytes().as_slice()).expect("decode");
    assert_eq!(decoded, l);

    let r = sample_sync_request();
    let decoded = ThreadSyncRequestMessage::from_bytes(r.to_bytes().as_slice()).expect("decode");
    assert_eq!(decoded, r);
}

#[test]
fn bare_message_rejects_trailing_bytes() {
    let t = sample_thread_message();
    let mut bytes = t.to_bytes();
    bytes.push(7);
    assert!(ThreadMessage::from_bytes(bytes.as_slice()).is_err());
}

#[test]
fn thread_message_new_stamps_no_signature() {
    let m = ThreadMessage::new(
        "id-1".to_string(),
        "A title".to_string(),
        Some("cid-1".to_string()),
        "did:icn:alice".to_string(),
    );
    assert_eq!(m.thread_id, "id-1");
    assert_eq!(m.title, "A title");
    assert_eq!(m.proposal_cid.as_deref(), Some("cid-1"));
    assert_eq!(m.author_did, "did:icn:alice");
    assert!(m.signature.is_none());
}

#[test]
fn sync_request_new_keeps_fields() {
    let m = ThreadSyncRequestMessage::new("tid".to_string(), Some(42), "did:icn:carol".to_string());
    assert_eq!(m.thread_id, "tid");
    assert_eq!(m.last_update, Some(42));
    assert_eq!(m.requester, "did:icn:carol");
}

#[test]
fn credential_link_message_new_stamps_no_signature() {
    let m = CredentialLinkMessage::new(
        "lid".to_string(),
        "tid".to_string(),
        "cid".to_string(),
        "did:icn:bob".to_string(),
    );
    assert_eq!(m.link_id, "lid");
    assert_eq!(m.thread_id, "tid");
    assert_eq!(m.credential_cid, "cid");
    assert_eq!(m.linked_by, "did:icn:bob");
    assert!(m.signature.is_none());
}
