//! The sync engine: the bridge between local durable state and the overlay.
//!
//! Inbound, the engine decodes envelopes received from peers and applies them
//! idempotently: a thread announcement creates the thread only if its id is
//! new, a credential link announcement deduplicates on the announcement
//! triple, and a sync request is answered by replaying the referenced thread
//! and every link attached to it. Outbound, `announce_thread` and
//! `announce_credential_link` encode and publish envelopes for state that is
//! already durably stored — an announce never precedes persistence, because
//! it reads the row it announces from the repository.
//!
//! Malformed envelopes, envelopes that do not match their topic, and storage
//! conflicts are absorbed here: nothing a remote peer sends can make the
//! engine panic or stall.

use vstd::prelude::*;
use vstd::seq_lib::*;
use vstd::string::StringExecFns;

use crate::FederationError;
use crate::network::{
    FederationNetwork, NetworkCommandView, NetworkError, NetworkEvent, NetworkTopic,
};
use crate::protocol::{
    spec_decode, spec_encode, CredentialLinkMessage, CredentialLinkMessageView, SyncMessage,
    SyncMessageView, ThreadMessage, ThreadMessageView, ThreadSyncRequestMessage,
};
use crate::store::{
    clone_opt_string, has_link_id, has_link_triple, has_thread_id, link_matches_triple,
    links_for_thread_spec, spec_get_thread, CredentialLink, CredentialLinkRepository,
    CredentialLinkView, StorageError, Thread, ThreadRepository, ThreadView,
};

verus! {

/// The DID this node stamps on the envelopes it originates.
pub const LOCAL_DID: &'static str = "did:icn:local";

/// Mathematical image of the engine: both repositories, the node identity,
/// and the lifecycle flag.
#[verifier::ext_equal]
pub struct SyncEngineModel {
    pub threads: Seq<ThreadView>,
    pub links: Seq<CredentialLinkView>,
    pub local_did: Seq<char>,
    pub running: bool,
}

/// The thread announcement this node builds for a stored thread.
pub open spec fn thread_announce_view(t: ThreadView, author_did: Seq<char>, now: i64)
    -> ThreadMessageView {
    ThreadMessageView {
        thread_id: t.id,
        title: t.title,
        proposal_cid: t.proposal_cid,
        created_at: now,
        author_did,
        signature: None,
    }
}

/// The credential link announcement this node builds for a stored link.
pub open spec fn link_announce_view(l: CredentialLinkView, now: i64) -> CredentialLinkMessageView {
    CredentialLinkMessageView {
        link_id: l.id,
        thread_id: l.thread_id,
        credential_cid: l.credential_cid,
        linked_by: l.linked_by,
        created_at: now,
        signature: None,
    }
}

/// The publish command an announce of a stored thread queues, stamped at a
/// given instant.
pub open spec fn announced_thread_cmd(t: ThreadView, author_did: Seq<char>, ts: i64)
    -> NetworkCommandView {
    NetworkCommandView::Publish {
        topic: NetworkTopic::ThreadAnnounce,
        data: spec_encode(SyncMessageView::Thread(thread_announce_view(t, author_did, ts))),
    }
}

/// The publish command an announce of a stored credential link queues,
/// stamped at a given instant.
pub open spec fn announced_link_cmd(l: CredentialLinkView, ts: i64) -> NetworkCommandView {
    NetworkCommandView::Publish {
        topic: NetworkTopic::CredentialLinkAnnounce,
        data: spec_encode(SyncMessageView::CredentialLink(link_announce_view(l, ts))),
    }
}

/// The thread row materialized from a received announcement: it keeps the
/// announced id and timestamps.
pub open spec fn thread_from_announce(m: ThreadMessageView) -> ThreadView {
    ThreadView {
        id: m.thread_id,
        title: m.title,
        proposal_cid: m.proposal_cid,
        created_at: m.created_at,
        updated_at: m.created_at,
    }
}

/// The link row materialized from a received announcement.
pub open spec fn link_from_announce(m: CredentialLinkMessageView) -> CredentialLinkView {
    CredentialLinkView {
        id: m.link_id,
        thread_id: m.thread_id,
        credential_cid: m.credential_cid,
        linked_by: m.linked_by,
        created_at: m.created_at,
    }
}

/// Idempotent convergence for threads: an announcement whose thread already
/// exists locally is a no-op; otherwise the thread is created under the
/// announced id.
pub open spec fn spec_apply_thread_announce(threads: Seq<ThreadView>, m: ThreadMessageView)
    -> Seq<ThreadView> {
    if has_thread_id(threads, m.thread_id) {
        threads
    } else {
        threads.push(thread_from_announce(m))
    }
}

/// Idempotent convergence for links: an announcement whose triple already
/// has a row is a no-op (conflict is success); a fresh triple under a taken
/// id is a storage error, absorbed as a no-op; otherwise the link is created
/// under the announced id.
pub open spec fn spec_apply_link_announce(
    links: Seq<CredentialLinkView>,
    m: CredentialLinkMessageView,
) -> Seq<CredentialLinkView> {
    if has_link_triple(links, m.thread_id, m.credential_cid, m.linked_by) {
        links
    } else if has_link_id(links, m.link_id) {
        links
    } else {
        links.push(link_from_announce(m))
    }
}

/// The replay a sync request earns: one thread announcement, then one
/// credential link announcement per stored link of that thread, in order.
pub open spec fn replay_commands(
    t: ThreadView,
    ls: Seq<CredentialLinkView>,
    author_did: Seq<char>,
    now: i64,
) -> Seq<NetworkCommandView> {
    seq![announced_thread_cmd(t, author_did, now)] + ls.map_values(
        |l: CredentialLinkView| announced_link_cmd(l, now),
    )
}

/// What one inbound message does to the local state: the new thread rows and
/// link rows. Bytes that do not decode, and envelopes that do not match
/// their topic, change nothing.
pub open spec fn spec_dispatch_state(
    threads: Seq<ThreadView>,
    links: Seq<CredentialLinkView>,
    topic: NetworkTopic,
    data: Seq<u8>,
) -> (Seq<ThreadView>, Seq<CredentialLinkView>) {
    match spec_decode(data) {
        Some(SyncMessageView::Thread(tm)) => if topic == NetworkTopic::ThreadAnnounce {
            (spec_apply_thread_announce(threads, tm), links)
        } else {
            (threads, links)
        },
        Some(SyncMessageView::CredentialLink(lm)) => if topic
            == NetworkTopic::CredentialLinkAnnounce {
            (threads, spec_apply_link_announce(links, lm))
        } else {
            (threads, links)
        },
        _ => (threads, links),
    }
}

/// What one inbound message publishes: a well-formed sync request for a
/// thread this node stores earns the full replay, anything else publishes
/// nothing. Publishing requires a started adapter; with a stopped adapter
/// the failures are absorbed and nothing is queued.
pub open spec fn spec_dispatch_publishes(
    threads: Seq<ThreadView>,
    links: Seq<CredentialLinkView>,
    local_did: Seq<char>,
    topic: NetworkTopic,
    data: Seq<u8>,
    now: i64,
    started: bool,
) -> Seq<NetworkCommandView> {
    match spec_decode(data) {
        Some(SyncMessageView::SyncRequest(rm)) => if topic == NetworkTopic::ThreadSyncRequest
            && started && has_thread_id(threads, rm.thread_id) {
            replay_commands(
                spec_get_thread(threads, rm.thread_id).unwrap(),
                links_for_thread_spec(links, rm.thread_id),
                local_did,
                now,
            )
        } else {
            Seq::<NetworkCommandView>::empty()
        },
        _ => Seq::<NetworkCommandView>::empty(),
    }
}

/// Maps an adapter error to a federation error, keeping its text.
fn map_net_err(e: NetworkError) -> (r: FederationError)
    ensures
        r is Network,
{
    match e {
        NetworkError::Transport(s) => FederationError::Network(s),
        NetworkError::Swarm(s) => FederationError::Network(s),
        NetworkError::Gossipsub(s) => FederationError::Network(s),
        NetworkError::Io(s) => FederationError::Network(s),
        NetworkError::Channel(s) => FederationError::Network(s),
    }
}

/// Engine for thread and credential link synchronization.
pub struct SyncEngine {
    /// Thread repository.
    threads: ThreadRepository,
    /// Credential link repository.
    links: CredentialLinkRepository,
    /// The DID stamped on envelopes this node originates.
    local_did: String,
    /// Whether the engine is running.
    running: bool,
}

impl View for SyncEngine {
    type V = SyncEngineModel;

    closed spec fn view(&self) -> SyncEngineModel {
        SyncEngineModel {
            threads: self.threads@,
            links: self.links@,
            local_did: self.local_did@,
            running: self.running,
        }
    }
}

impl SyncEngine {
    /// Both repositories are well-formed: thread ids unique, link ids unique,
    /// and no two link rows repeating an announcement triple.
    pub open spec fn wf(self) -> bool {
        &&& crate::store::thread_ids_unique(self@.threads)
        &&& crate::store::link_rows_unique(self@.links)
    }

    /// A stopped engine over empty repositories, identified by [`LOCAL_DID`].
    pub fn new() -> (r: SyncEngine)
        ensures
            r.wf(),
            r@ == (SyncEngineModel {
                threads: Seq::<ThreadView>::empty(),
                links: Seq::<CredentialLinkView>::empty(),
                local_did: LOCAL_DID@,
                running: false,
            }),
    {
        SyncEngine {
            threads: ThreadRepository::new(),
            links: CredentialLinkRepository::new(),
            local_did: String::from_str(LOCAL_DID),
            running: false,
        }
    }

    /// Whether the engine is running.
    pub fn is_running(&self) -> (r: bool)
        ensures
            r == self@.running,
    {
        self.running
    }

    /// Starts the engine; starting a running engine is a no-op.
    pub fn start(&mut self) -> (r: Result<(), FederationError>)
        requires
            old(self).wf(),
        ensures
            r is Ok,
            final(self).wf(),
            final(self)@ == (SyncEngineModel { running: true, ..old(self)@ }),
    {
        self.running = true;
        proof {
            assert(self@ =~= (SyncEngineModel { running: true, ..old(self)@ }));
        }
        Ok(())
    }

    /// Stops the engine; stopping a stopped engine is a no-op. The
    /// repositories survive.
    pub fn stop(&mut self) -> (r: Result<(), FederationError>)
        requires
            old(self).wf(),
        ensures
            r is Ok,
            final(self).wf(),
            final(self)@ == (SyncEngineModel { running: false, ..old(self)@ }),
    {
        self.running = false;
        proof {
            assert(self@ =~= (SyncEngineModel { running: false, ..old(self)@ }));
        }
        Ok(())
    }

    /// Creates a thread row locally. This is the write path of the platform
    /// around the engine; announcing reads it back, so an announce never
    /// precedes persistence.
    pub fn create_local_thread(
        &mut self,
        id: String,
        title: String,
        proposal_cid: Option<String>,
        now: i64,
    ) -> (r: Result<Thread, StorageError>)
        requires
            old(self).wf(),
        ensures
            final(self).wf(),
            final(self)@.links == old(self)@.links,
            final(self)@.local_did == old(self)@.local_did,
            final(self)@.running == old(self)@.running,
            match r {
                Ok(t) => {
                    &&& !has_thread_id(old(self)@.threads, id@)
                    &&& t@ == (ThreadView {
                        id: id@,
                        title: title@,
                        proposal_cid: crate::protocol::opt_str_view(&proposal_cid),
                        created_at: now,
                        updated_at: now,
                    })
                    &&& final(self)@.threads == old(self)@.threads.push(t@)
                },
                Err(e) => {
                    &&& has_thread_id(old(self)@.threads, id@)
                    &&& e is Database
                    &&& final(self)@.threads == old(self)@.threads
                },
            },
    {
        self.threads.create_thread(id, title, proposal_cid, now)
    }

    /// Creates a credential link row locally, deduplicating on the
    /// announcement triple exactly as the repository does.
    pub fn create_local_credential_link(
        &mut self,
        id: String,
        thread_id: String,
        credential_cid: String,
        linked_by: String,
        now: i64,
    ) -> (r: Result<CredentialLink, StorageError>)
        requires
            old(self).wf(),
        ensures
            final(self).wf(),
            final(self)@.threads == old(self)@.threads,
            final(self)@.local_did == old(self)@.local_did,
            final(self)@.running == old(self)@.running,
            match r {
                Ok(l) => {
                    if has_link_triple(old(self)@.links, thread_id@, credential_cid@, linked_by@) {
                        &&& final(self)@.links == old(self)@.links
                        &&& l@ == old(self)@.links[crate::store::link_triple_index(
                            old(self)@.links,
                            thread_id@,
                            credential_cid@,
                            linked_by@,
                        )]
                    } else {
                        &&& !has_link_id(old(self)@.links, id@)
                        &&& l@ == (CredentialLinkView {
                            id: id@,
                            thread_id: thread_id@,
                            credential_cid: credential_cid@,
                            linked_by: linked_by@,
                            created_at: now,
                        })
                        &&& final(self)@.links == old(self)@.links.push(l@)
                    }
                },
                Err(e) => {
                    &&& !has_link_triple(old(self)@.links, thread_id@, credential_cid@, linked_by@)
                    &&& has_link_id(old(self)@.links, id@)
                    &&& e is Database
                    &&& final(self)@.links == old(self)@.links
                },
            },
    {
        self.links.create_credential_link(id, thread_id, credential_cid, linked_by, now)
    }

    /// Looks a stored thread up by id.
    pub fn get_thread(&self, id: &str) -> (r: Result<Thread, StorageError>)
        requires
            self.wf(),
        ensures
            match r {
                Ok(t) => spec_get_thread(self@.threads, id@) == Some(t@),
                Err(e) => e == StorageError::NotFound && !has_thread_id(self@.threads, id@),
            },
    {
        self.threads.get_thread(id)
    }

    /// The stored links of a thread, in insertion order.
    pub fn get_links_for_thread(&self, thread_id: &str) -> (r: Result<
        Vec<CredentialLink>,
        StorageError,
    >)
        requires
            self.wf(),
        ensures
            r is Ok,
            r.unwrap().deep_view() == links_for_thread_spec(self@.links, thread_id@),
    {
        self.links.get_links_for_thread(thread_id)
    }

    /// Retitles a stored thread. Fails with `NotFound`, changing nothing,
    /// exactly when no thread carries the id.
    pub fn update_local_thread(&mut self, id: &str, title: &str, now: i64) -> (r: Result<
        Thread,
        StorageError,
    >)
        requires
            old(self).wf(),
        ensures
            final(self).wf(),
            final(self)@.links == old(self)@.links,
            final(self)@.local_did == old(self)@.local_did,
            final(self)@.running == old(self)@.running,
            match r {
                Ok(t) => {
                    &&& has_thread_id(old(self)@.threads, id@)
                    &&& t@ == (ThreadView {
                        title: title@,
                        updated_at: now,
                        ..old(self)@.threads[crate::store::thread_index(old(self)@.threads, id@)]
                    })
                    &&& final(self)@.threads == old(self)@.threads.update(
                        crate::store::thread_index(old(self)@.threads, id@),
                        t@,
                    )
                },
                Err(e) => {
                    &&& e == StorageError::NotFound
                    &&& !has_thread_id(old(self)@.threads, id@)
                    &&& final(self)@.threads == old(self)@.threads
                },
            },
    {
        self.threads.update_thread(id, title, now)
    }

    /// The first stored thread, in insertion order, that references the
    /// proposal CID.
    pub fn find_thread_by_proposal_cid(&self, proposal_cid: &str) -> (r: Result<
        Thread,
        StorageError,
    >)
        requires
            self.wf(),
        ensures
            match r {
                Ok(t) => crate::store::first_with_cid(self@.threads, proposal_cid@) == Some(t@),
                Err(e) => e == StorageError::NotFound && crate::store::first_with_cid(
                    self@.threads,
                    proposal_cid@,
                ) is None,
            },
    {
        self.threads.find_thread_by_proposal_cid(proposal_cid)
    }

    /// Announces a stored thread to the federation: reads the row, builds a
    /// thread announcement stamped with this node's DID and the given time,
    /// encodes it and queues it for publication on the thread topic. Fails
    /// with `NotFound` exactly when no thread carries the id, and with a
    /// network error exactly when the adapter is not started; either failure
    /// leaves the adapter untouched.
    pub fn announce_thread(
        &self,
        net: &mut FederationNetwork,
        thread_id: &str,
        now: i64,
    ) -> (r: Result<(), FederationError>)
        requires
            self.wf(),
            old(net).wf(),
        ensures
            final(net).wf(),
            final(net)@.started == old(net)@.started,
            final(net)@.peers == old(net)@.peers,
            final(net)@.events == old(net)@.events,
            match r {
                Ok(_) => {
                    &&& has_thread_id(self@.threads, thread_id@)
                    &&& old(net)@.started
                    &&& final(net)@.commands == old(net)@.commands.push(
                        NetworkCommandView::Publish {
                            topic: NetworkTopic::ThreadAnnounce,
                            data: spec_encode(
                                SyncMessageView::Thread(
                                    thread_announce_view(
                                        spec_get_thread(self@.threads, thread_id@).unwrap(),
                                        self@.local_did,
                                        now,
                                    ),
                                ),
                            ),
                        },
                    )
                },
                Err(e) => {
                    &&& final(net)@ == old(net)@
                    &&& if !has_thread_id(self@.threads, thread_id@) {
                        e == FederationError::Storage(StorageError::NotFound)
                    } else {
                        &&& !old(net)@.started
                        &&& e is Network
                    }
                },
            },
    {
        let t = match self.threads.get_thread(thread_id) {
            Ok(t) => t,
            Err(e) => {
                return Err(FederationError::Storage(e));
            },
        };
        let msg = ThreadMessage {
            thread_id: t.id,
            title: t.title,
            proposal_cid: t.proposal_cid,
            created_at: now,
            author_did: self.local_did.clone(),
            signature: None,
        };
        let data = SyncMessage::Thread(msg).to_bytes();
        match net.publish(NetworkTopic::ThreadAnnounce, data) {
            Ok(_) => Ok(()),
            Err(e) => Err(map_net_err(e)),
        }
    }

    /// Announces a stored credential link to the federation: loads the links
    /// of the thread, locates the one carrying the link id, builds a link
    /// announcement stamped with the given time, encodes it and queues it
    /// for publication on the link topic. Fails with `NotFound` exactly when
    /// that thread has no such link, and with a network error exactly when
    /// the adapter is not started; either failure leaves the adapter
    /// untouched.
    pub fn announce_credential_link(
        &self,
        net: &mut FederationNetwork,
        thread_id: &str,
        link_id: &str,
        now: i64,
    ) -> (r: Result<(), FederationError>)
        requires
            self.wf(),
            old(net).wf(),
        ensures
            final(net).wf(),
            final(net)@.started == old(net)@.started,
            final(net)@.peers == old(net)@.peers,
            final(net)@.events == old(net)@.events,
            match r {
                Ok(_) => {
                    &&& has_link_id(links_for_thread_spec(self@.links, thread_id@), link_id@)
                    &&& old(net)@.started
                    &&& final(net)@.commands == old(net)@.commands.push(
                        NetworkCommandView::Publish {
                            topic: NetworkTopic::CredentialLinkAnnounce,
                            data: spec_encode(
                                SyncMessageView::CredentialLink(
                                    link_announce_view(
                                        link_with_id(
                                            links_for_thread_spec(self@.links, thread_id@),
                                            link_id@,
                                        ),
                                        now,
                                    ),
                                ),
                            ),
                        },
                    )
                },
                Err(e) => {
                    &&& final(net)@ == old(net)@
                    &&& if !has_link_id(
                        links_for_thread_spec(self@.links, thread_id@),
                        link_id@,
                    ) {
                        e == FederationError::Storage(StorageError::NotFound)
                    } else {
                        &&& !old(net)@.started
                        &&& e is Network
                    }
                },
            },
    {
        let links = match self.links.get_links_for_thread(thread_id) {
            Ok(v) => v,
            Err(e) => {
                return Err(FederationError::Storage(e));
            },
        };
        let ghost ls = links_for_thread_spec(self@.links, thread_id@);
        let mut i: usize = 0;
        while i < links.len()
            invariant
                i <= links@.len(),
                self.wf(),
                net.wf(),
                net@ == old(net)@,
                links.deep_view() == ls,
                ls == links_for_thread_spec(self@.links, thread_id@),
                forall|k: int| 0 <= k < i ==> ls[k].id != link_id@,
            decreases links@.len() - i,
        {
            if crate::strcmp::str_eq(links[i].id.as_str(), link_id) {
                let l = &links[i];
                let msg = CredentialLinkMessage {
                    link_id: l.id.clone(),
                    thread_id: l.thread_id.clone(),
                    credential_cid: l.credential_cid.clone(),
                    linked_by: l.linked_by.clone(),
                    created_at: now,
                    signature: None,
                };
                proof {
                    assert(ls[i as int].id == link_id@);
                    lemma_links_for_thread_ids_unique(self@.links, thread_id@);
                    let k = choose|k: int| 0 <= k < ls.len() && ls[k].id == link_id@;
                    assert(ls[k].id == link_id@);
                    assert(k == i as int);
                    assert(msg@ == link_announce_view(link_with_id(ls, link_id@), now));
                }
                let data = SyncMessage::CredentialLink(msg).to_bytes();
                return match net.publish(NetworkTopic::CredentialLinkAnnounce, data) {
                    Ok(_) => Ok(()),
                    Err(e) => Err(map_net_err(e)),
                };
            }
            i = i + 1;
        }
        proof {
            if has_link_id(ls, link_id@) {
                let k = choose|k: int| 0 <= k < ls.len() && ls[k].id == link_id@;
                assert(ls[k].id == link_id@);
                assert(false);
            }
        }
        Err(FederationError::Storage(StorageError::NotFound))
    }

    /// Applies a received thread announcement with idempotent convergence: a
    /// thread that already exists locally is left alone, anything else is
    /// created under the announced id and timestamps.
    fn handle_thread_announcement(&mut self, msg: &ThreadMessage)
        requires
            old(self).wf(),
        ensures
            final(self).wf(),
            final(self)@ == (SyncEngineModel {
                threads: spec_apply_thread_announce(old(self)@.threads, msg@),
                ..old(self)@
            }),
    {
        match self.threads.get_thread(msg.thread_id.as_str()) {
            Ok(_) => {
                proof {
                    assert(self@ =~= (SyncEngineModel {
                        threads: spec_apply_thread_announce(old(self)@.threads, msg@),
                        ..old(self)@
                    }));
                }
            },
            Err(_) => {
                let created = self.threads.create_thread(
                    msg.thread_id.clone(),
                    msg.title.clone(),
                    clone_opt_string(&msg.proposal_cid),
                    msg.created_at,
                );
                proof {
                    assert(created is Ok);
                    assert(created.unwrap()@ =~= thread_from_announce(msg@));
                    assert(self@ =~= (SyncEngineModel {
                        threads: spec_apply_thread_announce(old(self)@.threads, msg@),
                        ..old(self)@
                    }));
                }
            },
        }
    }

    /// Applies a received credential link announcement: the repository
    /// deduplicates on the triple, and a storage conflict on the announced id
    /// is absorbed as a no-op.
    fn handle_credential_link_announcement(&mut self, msg: &CredentialLinkMessage)
        requires
            old(self).wf(),
        ensures
            final(self).wf(),
            final(self)@ == (SyncEngineModel {
                links: spec_apply_link_announce(old(self)@.links, msg@),
                ..old(self)@
            }),
    {
        let _outcome = self.links.create_credential_link(
            msg.link_id.clone(),
            msg.thread_id.clone(),
            msg.credential_cid.clone(),
            msg.linked_by.clone(),
            msg.created_at,
        );
        proof {
            assert(self@ =~= (SyncEngineModel {
                links: spec_apply_link_announce(old(self)@.links, msg@),
                ..old(self)@
            }));
        }
    }

    /// Answers a received sync request: if the referenced thread is stored,
    /// re-publishes its announcement and then one announcement per stored
    /// link; if it is not, or if the adapter is stopped, the request is
    /// skipped and nothing is queued. Replies are broadcast on the shared
    /// announce topics; a consumer not interested in the thread ignores the
    /// replay through the idempotence rule.
    fn handle_thread_sync_request(
        &self,
        net: &mut FederationNetwork,
        msg: &ThreadSyncRequestMessage,
        now: i64,
    )
        requires
            self.wf(),
            old(net).wf(),
        ensures
            final(net).wf(),
            final(net)@.started == old(net)@.started,
            final(net)@.peers == old(net)@.peers,
            final(net)@.events == old(net)@.events,
            final(net)@.commands == old(net)@.commands + (
            if old(net)@.started && has_thread_id(self@.threads, msg@.thread_id) {
                replay_commands(
                    spec_get_thread(self@.threads, msg@.thread_id).unwrap(),
                    links_for_thread_spec(self@.links, msg@.thread_id),
                    self@.local_did,
                    now,
                )
            } else {
                Seq::<NetworkCommandView>::empty()
            }),
    {
        let t = match self.threads.get_thread(msg.thread_id.as_str()) {
            Ok(t) => t,
            Err(_) => {
                proof {
                    assert(final(net)@.commands =~= old(net)@.commands
                        + Seq::<NetworkCommandView>::empty());
                }
                return ;
            },
        };
        let tmsg = ThreadMessage {
            thread_id: t.id,
            title: t.title,
            proposal_cid: t.proposal_cid,
            created_at: now,
            author_did: self.local_did.clone(),
            signature: None,
        };
        let data = SyncMessage::Thread(tmsg).to_bytes();
        match net.publish(NetworkTopic::ThreadAnnounce, data) {
            Ok(_) => {},
            Err(_) => {
                proof {
                    assert(final(net)@.commands =~= old(net)@.commands
                        + Seq::<NetworkCommandView>::empty());
                }
                return ;
            },
        }
        let ghost ls = links_for_thread_spec(self@.links, msg@.thread_id);
        let ghost expected = replay_commands(
            spec_get_thread(self@.threads, msg@.thread_id).unwrap(),
            ls,
            self@.local_did,
            now,
        );
        proof {
            assert(net@.commands =~= old(net)@.commands + expected.subrange(0, 1));
        }
        let links = match self.links.get_links_for_thread(msg.thread_id.as_str()) {
            Ok(v) => v,
            Err(_) => {
                proof {
                    assert(false);
                }
                return ;
            },
        };
        let mut i: usize = 0;
        while i < links.len()
            invariant
                i <= links@.len(),
                self.wf(),
                net.wf(),
                old(net)@.started,
                net@.started == old(net)@.started,
                net@.peers == old(net)@.peers,
                net@.events == old(net)@.events,
                links.deep_view() == ls,
                expected == replay_commands(
                    spec_get_thread(self@.threads, msg@.thread_id).unwrap(),
                    ls,
                    self@.local_did,
                    now,
                ),
                expected.len() == 1 + ls.len(),
                net@.commands == old(net)@.commands + expected.subrange(0, 1 + i as int),
            decreases links@.len() - i,
        {
            let l = &links[i];
            let lmsg = CredentialLinkMessage {
                link_id: l.id.clone(),
                thread_id: l.thread_id.clone(),
                credential_cid: l.credential_cid.clone(),
                linked_by: l.linked_by.clone(),
                created_at: now,
                signature: None,
            };
            proof {
                assert(lmsg@ =~= link_announce_view(ls[i as int], now));
                assert(expected[1 + i as int] == NetworkCommandView::Publish {
                    topic: NetworkTopic::CredentialLinkAnnounce,
                    data: spec_encode(
                        SyncMessageView::CredentialLink(link_announce_view(ls[i as int], now)),
                    ),
                });
            }
            let data = SyncMessage::CredentialLink(lmsg).to_bytes();
            let outcome = net.publish(NetworkTopic::CredentialLinkAnnounce, data);
            proof {
                assert(outcome is Ok);
                assert(net@.commands =~= old(net)@.commands + expected.subrange(
                    0,
                    1 + i as int + 1,
                ));
            }
            i = i + 1;
        }
        proof {
            assert(expected.subrange(0, expected.len() as int) =~= expected);
            assert(net@.commands =~= old(net)@.commands + expected);
        }
    }

    /// The dispatcher: decodes one inbound message and routes it by topic.
    /// Malformed bytes are dropped with no state change and no publish; a
    /// decoded envelope that does not match its topic is dropped the same
    /// way. The requesting peer is not addressed individually: replies go
    /// out as broadcasts.
    pub fn handle_message(
        &mut self,
        net: &mut FederationNetwork,
        _peer_id: &str,
        topic: NetworkTopic,
        data: &[u8],
        now: i64,
    )
        requires
            old(self).wf(),
            old(net).wf(),
        ensures
            final(self).wf(),
            final(net).wf(),
            final(self)@.local_did == old(self)@.local_did,
            final(self)@.running == old(self)@.running,
            final(net)@.started == old(net)@.started,
            final(net)@.peers == old(net)@.peers,
            final(net)@.events == old(net)@.events,
            final(self)@.threads == spec_dispatch_state(
                old(self)@.threads,
                old(self)@.links,
                topic,
                data@,
            ).0,
            final(self)@.links == spec_dispatch_state(
                old(self)@.threads,
                old(self)@.links,
                topic,
                data@,
            ).1,
            final(net)@.commands == old(net)@.commands + spec_dispatch_publishes(
                old(self)@.threads,
                old(self)@.links,
                old(self)@.local_did,
                topic,
                data@,
                now,
                old(net)@.started,
            ),
    {
        let msg = match SyncMessage::from_bytes(data) {
            Ok(m) => m,
            Err(_) => {
                proof {
                    assert(final(net)@.commands =~= old(net)@.commands
                        + Seq::<NetworkCommandView>::empty());
                }
                return ;
            },
        };
        let ghost empty_cmds = Seq::<NetworkCommandView>::empty();
        match msg {
            SyncMessage::Thread(tm) => {
                if let NetworkTopic::ThreadAnnounce = topic {
                    self.handle_thread_announcement(&tm);
                }
                proof {
                    assert(final(net)@.commands =~= old(net)@.commands + empty_cmds);
                }
            },
            SyncMessage::CredentialLink(lm) => {
                if let NetworkTopic::CredentialLinkAnnounce = topic {
                    self.handle_credential_link_announcement(&lm);
                }
                proof {
                    assert(final(net)@.commands =~= old(net)@.commands + empty_cmds);
                }
            },
            SyncMessage::SyncRequest(rm) => {
                if let NetworkTopic::ThreadSyncRequest = topic {
                    self.handle_thread_sync_request(net, &rm, now);
                } else {
                    proof {
                        assert(final(net)@.commands =~= old(net)@.commands + empty_cmds);
                    }
                }
            },
        }
    }

    /// Consumes one adapter event: a message is dispatched, peer lifecycle
    /// events are of no interest to the engine and are dropped.
    pub fn handle_event(&mut self, net: &mut FederationNetwork, event: NetworkEvent, now: i64)
        requires
            old(self).wf(),
            old(net).wf(),
        ensures
            final(self).wf(),
            final(net).wf(),
            final(self)@.local_did == old(self)@.local_did,
            final(self)@.running == old(self)@.running,
            final(net)@.started == old(net)@.started,
            final(net)@.peers == old(net)@.peers,
            final(net)@.events == old(net)@.events,
            match event@ {
                crate::network::NetworkEventView::Message { peer_id, topic, data } => {
                    &&& final(self)@.threads == spec_dispatch_state(
                        old(self)@.threads,
                        old(self)@.links,
                        topic,
                        data,
                    ).0
                    &&& final(self)@.links == spec_dispatch_state(
                        old(self)@.threads,
                        old(self)@.links,
                        topic,
                        data,
                    ).1
                    &&& final(net)@.commands == old(net)@.commands + spec_dispatch_publishes(
                        old(self)@.threads,
                        old(self)@.links,
                        old(self)@.local_did,
                        topic,
                        data,
                        now,
                        old(net)@.started,
                    )
                },
                _ => final(self)@ == old(self)@ && final(net)@ == old(net)@,
            },
    {
        match event {
            NetworkEvent::Message { peer_id, topic, data } => {
                self.handle_message(net, peer_id.as_str(), topic, data.as_slice(), now);
            },
            _ => {},
        }
    }
}

/// Idempotent apply for threads: after one application the announced thread
/// exists; a second application of the same announcement is a no-op, so
/// repeated delivery leaves exactly one thread with the announced id (ids
/// stay unique when they were unique before).
pub proof fn lemma_thread_apply_idempotent(threads: Seq<ThreadView>, m: ThreadMessageView)
    ensures
        has_thread_id(spec_apply_thread_announce(threads, m), m.thread_id),
        spec_apply_thread_announce(spec_apply_thread_announce(threads, m), m)
            == spec_apply_thread_announce(threads, m),
        (forall|i: int, j: int| 0 <= i < j < threads.len() ==> threads[i].id != threads[j].id)
            ==> (forall|i: int, j: int|
            0 <= i < j < spec_apply_thread_announce(threads, m).len()
                ==> spec_apply_thread_announce(threads, m)[i].id != spec_apply_thread_announce(
                threads,
                m,
            )[j].id),
{
    let once = spec_apply_thread_announce(threads, m);
    if has_thread_id(threads, m.thread_id) {
    } else {
        assert(once[threads.len() as int].id == m.thread_id);
        if (forall|i: int, j: int| 0 <= i < j < threads.len() ==> threads[i].id != threads[j].id) {
            assert forall|i: int, j: int| 0 <= i < j < once.len() implies once[i].id
                != once[j].id by {
                if j == threads.len() {
                    assert(once[i] == threads[i]);
                    assert(!has_thread_id(threads, m.thread_id));
                }
            }
        }
    }
}

/// Idempotent apply for links: a second application of the same link
/// announcement is a no-op, and applying an announcement never produces two
/// rows with one announcement triple (triples stay unique when they were
/// unique before).
pub proof fn lemma_link_apply_idempotent(links: Seq<CredentialLinkView>, m: CredentialLinkMessageView)
    ensures
        spec_apply_link_announce(spec_apply_link_announce(links, m), m) == spec_apply_link_announce(
            links,
            m,
        ),
        (forall|i: int, j: int|
            0 <= i < j < links.len() ==> !link_matches_triple(
                links[i],
                links[j].thread_id,
                links[j].credential_cid,
                links[j].linked_by,
            )) ==> (forall|i: int, j: int|
            0 <= i < j < spec_apply_link_announce(links, m).len() ==> !link_matches_triple(
                spec_apply_link_announce(links, m)[i],
                spec_apply_link_announce(links, m)[j].thread_id,
                spec_apply_link_announce(links, m)[j].credential_cid,
                spec_apply_link_announce(links, m)[j].linked_by,
            )),
{
    let once = spec_apply_link_announce(links, m);
    if has_link_triple(links, m.thread_id, m.credential_cid, m.linked_by) {
    } else if has_link_id(links, m.link_id) {
    } else {
        assert(crate::store::link_matches_triple(
            once[links.len() as int],
            m.thread_id,
            m.credential_cid,
            m.linked_by,
        ));
        assert(has_link_triple(once, m.thread_id, m.credential_cid, m.linked_by));
        if (forall|i: int, j: int|
            0 <= i < j < links.len() ==> !link_matches_triple(
                links[i],
                links[j].thread_id,
                links[j].credential_cid,
                links[j].linked_by,
            )) {
            assert forall|i: int, j: int| 0 <= i < j < once.len() implies !link_matches_triple(
                once[i],
                once[j].thread_id,
                once[j].credential_cid,
                once[j].linked_by,
            ) by {
                if j == links.len() {
                    assert(once[i] == links[i]);
                    assert(!has_link_triple(links, m.thread_id, m.credential_cid, m.linked_by));
                }
            }
        }
    }
}

/// Unknown or malformed bytes are dropped: input that does not decode to an
/// envelope changes no repository row and publishes nothing, on any topic.
pub proof fn lemma_malformed_bytes_dropped(
    threads: Seq<ThreadView>,
    links: Seq<CredentialLinkView>,
    local_did: Seq<char>,
    topic: NetworkTopic,
    data: Seq<u8>,
    now: i64,
    started: bool,
)
    requires
        spec_decode(data) is None,
    ensures
        spec_dispatch_state(threads, links, topic, data).0 == threads,
        spec_dispatch_state(threads, links, topic, data).1 == links,
        spec_dispatch_publishes(threads, links, local_did, topic, data, now, started)
            == Seq::<NetworkCommandView>::empty(),
{
}

/// Sync-request replay shape: the replay for a stored thread is exactly one
/// thread announcement followed by exactly one link announcement per stored
/// link, in storage order, each built from the stored row.
pub proof fn lemma_replay_shape(
    t: ThreadView,
    ls: Seq<CredentialLinkView>,
    author_did: Seq<char>,
    now: i64,
)
    ensures
        replay_commands(t, ls, author_did, now).len() == 1 + ls.len(),
        replay_commands(t, ls, author_did, now)[0] == announced_thread_cmd(t, author_did, now),
        forall|k: int|
            0 <= k < ls.len() ==> replay_commands(t, ls, author_did, now)[1 + k]
                == announced_link_cmd(ls[k], now),
{
}

/// The link carrying the id within a sequence of links.
pub open spec fn link_with_id(s: Seq<CredentialLinkView>, id: Seq<char>) -> CredentialLinkView {
    s[choose|k: int| 0 <= k < s.len() && s[k].id == id]
}

/// The links selected for one thread keep unique ids, and each is a link of
/// the underlying sequence.
pub proof fn lemma_links_for_thread_ids_unique(s: Seq<CredentialLinkView>, thread_id: Seq<char>)
    requires
        forall|i: int, j: int| 0 <= i < j < s.len() ==> s[i].id != s[j].id,
    ensures
        forall|k: int|
            0 <= k < links_for_thread_spec(s, thread_id).len() ==> s.contains(
                #[trigger] links_for_thread_spec(s, thread_id)[k],
            ),
        forall|i: int, j: int|
            0 <= i < j < links_for_thread_spec(s, thread_id).len()
                ==> links_for_thread_spec(s, thread_id)[i].id != links_for_thread_spec(
                s,
                thread_id,
            )[j].id,
    decreases s.len(),
{
    if s.len() == 0 {
    } else {
        let rest = s.drop_first();
        assert forall|i: int, j: int| 0 <= i < j < rest.len() implies rest[i].id
            != rest[j].id by {
            assert(rest[i] == s[i + 1]);
            assert(rest[j] == s[j + 1]);
        }
        lemma_links_for_thread_ids_unique(rest, thread_id);
        let ls = links_for_thread_spec(s, thread_id);
        let lr = links_for_thread_spec(rest, thread_id);
        assert forall|k: int| 0 <= k < lr.len() implies s.contains(#[trigger] lr[k]) by {
            assert(rest.contains(lr[k]));
            let j = choose|j: int| 0 <= j < rest.len() && rest[j] == lr[k];
            assert(s[j + 1] == lr[k]);
        }
        if s[0].thread_id == thread_id {
            assert(ls == seq![s[0]] + lr);
            assert forall|k: int| 0 <= k < ls.len() implies s.contains(#[trigger] ls[k]) by {
                if k == 0 {
                    assert(ls[0] == s[0]);
                } else {
                    assert(ls[k] == lr[k - 1]);
                }
            }
            assert forall|i: int, j: int| 0 <= i < j < ls.len() implies ls[i].id != ls[j].id by {
                if i == 0 {
                    assert(ls[j] == lr[j - 1]);
                    assert(rest.contains(lr[j - 1]));
                    let w = choose|w: int| 0 <= w < rest.len() && rest[w] == lr[j - 1];
                    assert(s[w + 1] == lr[j - 1]);
                    assert(s[0].id != s[w + 1].id);
                } else {
                    assert(ls[i] == lr[i - 1]);
                    assert(ls[j] == lr[j - 1]);
                }
            }
        } else {
            assert(ls == lr);
        }
    }
}

} // verus!
