//! Bridge to the platform runtime: turns runtime events into local rows and
//! federation announcements.
//!
//! A background task elsewhere polls the runtime API on a fixed period and
//! hands each event it finds to [`handle_runtime_event`], together with a
//! fresh id for any thread the event may create and the current time. The
//! decisions live here, verified: a created proposal earns a new thread and
//! a broadcast announcement; a finalized proposal retitles its thread with
//! the verdict and re-announces it; announcement failures are absorbed, since
//! the periodic announce cycle redelivers.

use vstd::prelude::*;
use vstd::string::StringExecFns;

use crate::FederationError;
use crate::network::{FederationNetwork, NetworkCommandView};
use crate::store::{
    first_with_cid, has_thread_id, lemma_first_with_cid_mem, spec_get_thread, thread_index,
    StorageError, ThreadView,
};
use crate::sync::{announced_thread_cmd, SyncEngine};

verus! {

/// Errors of the runtime bridge.
#[derive(Clone, PartialEq, Eq, Debug)]
pub enum RuntimeError {
    /// The runtime API could not be reached.
    ConnectionFailed(String),
    /// A storage collaborator failed.
    Storage(StorageError),
    /// The federation layer failed.
    Federation(FederationError),
    /// Unexpected failure.
    Other(String),
}

/// Events from the platform runtime that this node reacts to.
#[derive(Clone, PartialEq, Eq, Debug)]
pub enum RuntimeEvent {
    /// A new proposal has been created.
    ProposalCreated { proposal_cid: String, title: String, created_by: String, timestamp: i64 },
    /// A credential has been issued.
    CredentialIssued {
        credential_cid: String,
        issuer_did: String,
        subject_did: String,
        credential_type: String,
        timestamp: i64,
    },
    /// A proposal has been finalized.
    ProposalFinalized { proposal_cid: String, approved: bool, timestamp: i64 },
}

/// Mathematical image of a [`RuntimeEvent`].
#[verifier::ext_equal]
pub enum RuntimeEventView {
    ProposalCreated {
        proposal_cid: Seq<char>,
        title: Seq<char>,
        created_by: Seq<char>,
        timestamp: i64,
    },
    CredentialIssued {
        credential_cid: Seq<char>,
        issuer_did: Seq<char>,
        subject_did: Seq<char>,
        credential_type: Seq<char>,
        timestamp: i64,
    },
    ProposalFinalized { proposal_cid: Seq<char>, approved: bool, timestamp: i64 },
}

impl View for RuntimeEvent {
    type V = RuntimeEventView;

    open spec fn view(&self) -> RuntimeEventView {
        match self {
            RuntimeEvent::ProposalCreated { proposal_cid, title, created_by, timestamp } => {
                RuntimeEventView::ProposalCreated {
                    proposal_cid: proposal_cid@,
                    title: title@,
                    created_by: created_by@,
                    timestamp: *timestamp,
                }
            },
            RuntimeEvent::CredentialIssued {
                credential_cid,
                issuer_did,
                subject_did,
                credential_type,
                timestamp,
            } => {
                RuntimeEventView::CredentialIssued {
                    credential_cid: credential_cid@,
                    issuer_did: issuer_did@,
                    subject_did: subject_did@,
                    credential_type: credential_type@,
                    timestamp: *timestamp,
                }
            },
            RuntimeEvent::ProposalFinalized { proposal_cid, approved, timestamp } => {
                RuntimeEventView::ProposalFinalized {
                    proposal_cid: proposal_cid@,
                    approved: *approved,
                    timestamp: *timestamp,
                }
            },
        }
    }
}

/// The thread row a created proposal earns.
pub open spec fn proposal_thread_view(
    id: Seq<char>,
    title: Seq<char>,
    proposal_cid: Seq<char>,
    now: i64,
) -> ThreadView {
    ThreadView {
        id,
        title,
        proposal_cid: Some(proposal_cid),
        created_at: now,
        updated_at: now,
    }
}

/// The verdict-marked title a finalized proposal's thread is given.
pub open spec fn finalized_title(approved: bool, title: Seq<char>) -> Seq<char> {
    if approved {
        "[APPROVED] "@ + title
    } else {
        "[REJECTED] "@ + title
    }
}

/// Applies one runtime event against the local state and the federation.
///
/// A created proposal earns a thread under the caller-supplied fresh id,
/// announced at once; the announcement is dropped when the adapter is
/// stopped. A finalized proposal retitles the first thread referencing the
/// proposal — skipping proposals this node has no thread for — and
/// re-announces it. Credential issuance is noted and ignored: no thread to
/// link it to is known here. Only a collision on the fresh thread id is an
/// error.
pub fn handle_runtime_event(
    event: &RuntimeEvent,
    engine: &mut SyncEngine,
    net: &mut FederationNetwork,
    new_thread_id: String,
    now: i64,
) -> (r: Result<(), RuntimeError>)
    requires
        old(engine).wf(),
        old(net).wf(),
    ensures
        final(engine).wf(),
        final(net).wf(),
        final(engine)@.links == old(engine)@.links,
        final(engine)@.local_did == old(engine)@.local_did,
        final(engine)@.running == old(engine)@.running,
        final(net)@.started == old(net)@.started,
        final(net)@.peers == old(net)@.peers,
        final(net)@.events == old(net)@.events,
        match event@ {
            RuntimeEventView::ProposalCreated { proposal_cid, title, .. } => {
                if has_thread_id(old(engine)@.threads, new_thread_id@) {
                    &&& r is Err
                    &&& final(engine)@.threads == old(engine)@.threads
                    &&& final(net)@.commands == old(net)@.commands
                } else {
                    &&& r is Ok
                    &&& final(engine)@.threads == old(engine)@.threads.push(
                        proposal_thread_view(new_thread_id@, title, proposal_cid, now),
                    )
                    &&& final(net)@.commands == old(net)@.commands + (
                    if old(net)@.started {
                        seq![
                            announced_thread_cmd(
                                proposal_thread_view(new_thread_id@, title, proposal_cid, now),
                                old(engine)@.local_did,
                                now,
                            ),
                        ]
                    } else {
                        Seq::<NetworkCommandView>::empty()
                    })
                }
            },
            RuntimeEventView::CredentialIssued { .. } => {
                &&& r is Ok
                &&& final(engine)@.threads == old(engine)@.threads
                &&& final(net)@.commands == old(net)@.commands
            },
            RuntimeEventView::ProposalFinalized { proposal_cid, approved, .. } => {
                match first_with_cid(old(engine)@.threads, proposal_cid) {
                    None => {
                        &&& r is Ok
                        &&& final(engine)@.threads == old(engine)@.threads
                        &&& final(net)@.commands == old(net)@.commands
                    },
                    Some(t) => {
                        &&& r is Ok
                        &&& final(engine)@.threads == old(engine)@.threads.update(
                            thread_index(old(engine)@.threads, t.id),
                            (ThreadView { title: finalized_title(approved, t.title), updated_at: now, ..t }),
                        )
                        &&& final(net)@.commands == old(net)@.commands + (
                        if old(net)@.started {
                            seq![
                                announced_thread_cmd(
                                    (ThreadView {
                                        title: finalized_title(approved, t.title),
                                        updated_at: now,
                                        ..t
                                    }),
                                    old(engine)@.local_did,
                                    now,
                                ),
                            ]
                        } else {
                            Seq::<NetworkCommandView>::empty()
                        })
                    },
                }
            },
        },
{
    match event {
        RuntimeEvent::ProposalCreated { proposal_cid, title, .. } => {
            let t = match engine.create_local_thread(
                new_thread_id,
                title.clone(),
                Some(proposal_cid.clone()),
                now,
            ) {
                Ok(t) => t,
                Err(e) => {
                    proof {
                        assert(final(net)@.commands =~= old(net)@.commands);
                    }
                    return Err(RuntimeError::Storage(e));
                },
            };
            let ghost tv = proposal_thread_view(t@.id, title@, proposal_cid@, now);
            proof {
                assert(t@ =~= tv);
                let threads1 = engine@.threads;
                assert(threads1[threads1.len() - 1].id == tv.id);
                assert(has_thread_id(threads1, tv.id));
                let k = thread_index(threads1, tv.id);
                assert(threads1[k].id == tv.id);
                if k < threads1.len() - 1 {
                    assert(threads1[k].id != threads1[threads1.len() - 1].id);
                    assert(false);
                }
                assert(spec_get_thread(threads1, tv.id) == Some(tv));
            }
            let outcome = engine.announce_thread(net, t.id.as_str(), now);
            proof {
                if old(net)@.started {
                    assert(outcome is Ok);
                    assert(final(net)@.commands =~= old(net)@.commands + seq![
                        announced_thread_cmd(tv, old(engine)@.local_did, now),
                    ]);
                } else {
                    assert(final(net)@.commands =~= old(net)@.commands
                        + Seq::<NetworkCommandView>::empty());
                }
            }
            Ok(())
        },
        RuntimeEvent::CredentialIssued { .. } => Ok(()),
        RuntimeEvent::ProposalFinalized { proposal_cid, approved, .. } => {
            let t = match engine.find_thread_by_proposal_cid(proposal_cid.as_str()) {
                Ok(t) => t,
                Err(_) => {
                    return Ok(());
                },
            };
            proof {
                lemma_first_with_cid_mem(old(engine)@.threads, proposal_cid@);
                let k = choose|k: int|
                    0 <= k < old(engine)@.threads.len() && old(engine)@.threads[k]
                        == first_with_cid(old(engine)@.threads, proposal_cid@).unwrap();
                assert(old(engine)@.threads[k].id == t@.id);
            }
            let status = if *approved {
                "[APPROVED] "
            } else {
                "[REJECTED] "
            };
            let new_title = String::from_str(status).concat(t.title.as_str());
            proof {
                assert(new_title@ == finalized_title(*approved, t@.title));
            }
            let ghost idx = thread_index(old(engine)@.threads, t@.id);
            proof {
                assert(old(engine)@.threads[idx].id == t@.id);
                let k = choose|k: int|
                    0 <= k < old(engine)@.threads.len() && old(engine)@.threads[k]
                        == first_with_cid(old(engine)@.threads, proposal_cid@).unwrap();
                if k != idx {
                    assert(old(engine)@.threads[k].id == old(engine)@.threads[idx].id);
                    assert(false);
                }
                assert(old(engine)@.threads[idx] == t@);
            }
            let updated = match engine.update_local_thread(
                t.id.as_str(),
                new_title.as_str(),
                now,
            ) {
                Ok(u) => u,
                Err(_) => {
                    proof {
                        assert(false);
                    }
                    return Ok(());
                },
            };
            let ghost tv = (ThreadView {
                title: finalized_title(*approved, t@.title),
                updated_at: now,
                ..t@
            });
            proof {
                assert(updated@ =~= tv);
                let threads1 = engine@.threads;
                assert(threads1 == old(engine)@.threads.update(idx, tv));
                assert(threads1[idx].id == tv.id);
                assert(has_thread_id(threads1, tv.id));
                let k = thread_index(threads1, tv.id);
                assert(threads1[k].id == tv.id);
                if k != idx {
                    assert(threads1[k].id != threads1[idx].id);
                    assert(false);
                }
                assert(spec_get_thread(threads1, tv.id) == Some(tv));
            }
            let outcome = engine.announce_thread(net, updated.id.as_str(), now);
            proof {
                assert(updated@.id == tv.id);
                if old(net)@.started {
                    assert(outcome is Ok);
                    assert(final(net)@.commands =~= old(net)@.commands + seq![
                        announced_thread_cmd(tv, old(engine)@.local_did, now),
                    ]);
                } else {
                    assert(final(net)@.commands =~= old(net)@.commands
                        + Seq::<NetworkCommandView>::empty());
                }
            }
            Ok(())
        },
    }
}

} // verus!
