//! The federation facade: lifecycle controller composing the transport
//! adapter, the sync engine and peer discovery with a fixed start/stop order.
//!
//! `start` brings up the adapter first, then the engine, then discovery, so
//! the engine never observes a dead adapter mid-operation; `stop` reverses
//! the order: discovery, engine, adapter. Announces read the row they
//! announce from the repositories, so an announce never precedes
//! persistence. The adapter's command queue and overlay notifications are
//! exposed here for the runner that drives the real network.

use vstd::prelude::*;

use crate::FederationError;
use crate::discovery::{connect_commands, default_bootstrap_nodes, PeerDiscovery};
use crate::network::{
    FederationNetwork, NetworkCommand, NetworkCommandView, NetworkEvent, NetworkModel,
    NetworkTopic,
};
use crate::protocol::unix_now;
use crate::store::{
    has_link_id, has_thread_id, links_for_thread_spec, spec_get_thread, CredentialLink,
    CredentialLinkView, StorageError, Thread, ThreadView,
};
use crate::sync::{
    announced_link_cmd, announced_thread_cmd, link_with_id, spec_dispatch_publishes,
    spec_dispatch_state, SyncEngine, SyncEngineModel,
};

verus! {

/// Mathematical image of the facade: the adapter, the engine, and the
/// discovery flag with its bootstrap list.
#[verifier::ext_equal]
pub struct FederationModel {
    pub network: NetworkModel,
    pub engine: SyncEngineModel,
    pub bootstrap: Seq<Seq<char>>,
    pub discovery_running: bool,
}

/// Main federation service orchestrating peer-to-peer replication for this
/// node.
pub struct Federation {
    /// The transport adapter owning the overlay connection.
    network: FederationNetwork,
    /// The sync engine over the local repositories.
    sync_engine: SyncEngine,
    /// The discovery service over the static bootstrap list.
    discovery: PeerDiscovery,
}

impl View for Federation {
    type V = FederationModel;

    closed spec fn view(&self) -> FederationModel {
        FederationModel {
            network: self.network@,
            engine: self.sync_engine@,
            bootstrap: self.discovery@.bootstrap,
            discovery_running: self.discovery@.running,
        }
    }
}

impl Federation {
    /// The adapter and both repositories are well-formed.
    pub open spec fn wf(self) -> bool {
        &&& self@.network.peers.no_duplicates()
        &&& crate::store::thread_ids_unique(self@.engine.threads)
        &&& crate::store::link_rows_unique(self@.engine.links)
    }

    /// The set of currently connected peers.
    pub open spec fn peers_set(self) -> Set<Seq<char>> {
        self@.network.peers.to_set()
    }

    /// A stopped federation service over empty repositories and the default
    /// bootstrap list.
    pub fn new() -> (r: Result<Federation, FederationError>)
        ensures
            r is Ok,
            r.unwrap().wf(),
            !r.unwrap()@.network.started,
            r.unwrap()@.network.peers == Seq::<Seq<char>>::empty(),
            r.unwrap()@.network.commands == Seq::<NetworkCommandView>::empty(),
            r.unwrap()@.network.events == Seq::<crate::network::NetworkEventView>::empty(),
            r.unwrap()@.engine.threads == Seq::<ThreadView>::empty(),
            r.unwrap()@.engine.links == Seq::<CredentialLinkView>::empty(),
            !r.unwrap()@.engine.running,
            !r.unwrap()@.discovery_running,
    {
        let network = match FederationNetwork::new() {
            Ok(n) => n,
            Err(_) => {
                return Err(FederationError::Network(String::new()));
            },
        };
        let sync_engine = SyncEngine::new();
        let discovery = PeerDiscovery::new(default_bootstrap_nodes());
        Ok(Federation { network, sync_engine, discovery })
    }

    /// Starts the federation service: the adapter first, then the engine,
    /// then discovery, whose initial dial round is queued at once. Starting
    /// a running service is a no-op apart from the dial round discovery
    /// skips. The repositories and the peer set carry over.
    pub fn start(&mut self) -> (r: Result<(), FederationError>)
        requires
            old(self).wf(),
        ensures
            r is Ok,
            final(self).wf(),
            final(self)@.network.started,
            final(self)@.engine == (SyncEngineModel { running: true, ..old(self)@.engine }),
            final(self)@.network.peers == old(self)@.network.peers,
            final(self)@.bootstrap == old(self)@.bootstrap,
            final(self)@.discovery_running,
            final(self)@.network.commands == (
            if old(self)@.network.started {
                old(self)@.network.commands
            } else {
                Seq::<NetworkCommandView>::empty()
            }) + (
            if !old(self)@.discovery_running {
                connect_commands(old(self)@.bootstrap)
            } else {
                Seq::<NetworkCommandView>::empty()
            }),
    {
        match self.network.start() {
            Ok(_) => {},
            Err(_) => {
                proof {
                    assert(false);
                }
                return Err(FederationError::Network(String::new()));
            },
        }
        let _ = self.sync_engine.start();
        let _ = self.discovery.start(&mut self.network);
        Ok(())
    }

    /// Stops the federation service: discovery, then the engine, then the
    /// adapter. The repositories and the peer set survive, and a later
    /// `start` brings the service back up.
    pub fn stop(&mut self) -> (r: Result<(), FederationError>)
        requires
            old(self).wf(),
        ensures
            r is Ok,
            final(self).wf(),
            !final(self)@.network.started,
            final(self)@.engine == (SyncEngineModel { running: false, ..old(self)@.engine }),
            final(self)@.network.peers == old(self)@.network.peers,
            final(self)@.bootstrap == old(self)@.bootstrap,
            !final(self)@.discovery_running,
    {
        let _ = self.discovery.stop();
        let _ = self.sync_engine.stop();
        let _ = self.network.stop();
        Ok(())
    }

    /// Announces a stored thread to the federation, stamped with the current
    /// time. Fails with `NotFound` exactly when no thread carries the id,
    /// and with a network error exactly when the service is not started.
    pub fn announce_thread(&mut self, thread_id: &str) -> (r: Result<(), FederationError>)
        requires
            old(self).wf(),
        ensures
            final(self).wf(),
            final(self)@.engine == old(self)@.engine,
            final(self)@.network.started == old(self)@.network.started,
            final(self)@.network.peers == old(self)@.network.peers,
            final(self)@.network.events == old(self)@.network.events,
            final(self)@.bootstrap == old(self)@.bootstrap,
            final(self)@.discovery_running == old(self)@.discovery_running,
            match r {
                Ok(_) => {
                    &&& has_thread_id(old(self)@.engine.threads, thread_id@)
                    &&& old(self)@.network.started
                    &&& exists|ts: i64|
                        final(self)@.network.commands == old(self)@.network.commands.push(
                            #[trigger] announced_thread_cmd(
                                spec_get_thread(old(self)@.engine.threads, thread_id@).unwrap(),
                                old(self)@.engine.local_did,
                                ts,
                            ),
                        )
                },
                Err(e) => {
                    &&& final(self)@.network == old(self)@.network
                    &&& if !has_thread_id(old(self)@.engine.threads, thread_id@) {
                        e == FederationError::Storage(StorageError::NotFound)
                    } else {
                        &&& !old(self)@.network.started
                        &&& e is Network
                    }
                },
            },
    {
        let now = unix_now();
        let r = self.sync_engine.announce_thread(&mut self.network, thread_id, now);
        proof {
            if r is Ok {
                assert(final(self)@.network.commands == old(self)@.network.commands.push(
                    announced_thread_cmd(
                        spec_get_thread(old(self)@.engine.threads, thread_id@).unwrap(),
                        old(self)@.engine.local_did,
                        now,
                    ),
                ));
            }
        }
        r
    }

    /// Announces a stored credential link to the federation, stamped with
    /// the current time. Fails with `NotFound` exactly when the thread has
    /// no such link, and with a network error exactly when the service is
    /// not started.
    pub fn announce_credential_link(&mut self, thread_id: &str, link_id: &str) -> (r: Result<
        (),
        FederationError,
    >)
        requires
            old(self).wf(),
        ensures
            final(self).wf(),
            final(self)@.engine == old(self)@.engine,
            final(self)@.network.started == old(self)@.network.started,
            final(self)@.network.peers == old(self)@.network.peers,
            final(self)@.network.events == old(self)@.network.events,
            final(self)@.bootstrap == old(self)@.bootstrap,
            final(self)@.discovery_running == old(self)@.discovery_running,
            match r {
                Ok(_) => {
                    &&& has_link_id(
                        links_for_thread_spec(old(self)@.engine.links, thread_id@),
                        link_id@,
                    )
                    &&& old(self)@.network.started
                    &&& exists|ts: i64|
                        final(self)@.network.commands == old(self)@.network.commands.push(
                            #[trigger] announced_link_cmd(
                                link_with_id(
                                    links_for_thread_spec(old(self)@.engine.links, thread_id@),
                                    link_id@,
                                ),
                                ts,
                            ),
                        )
                },
                Err(e) => {
                    &&& final(self)@.network == old(self)@.network
                    &&& if !has_link_id(
                        links_for_thread_spec(old(self)@.engine.links, thread_id@),
                        link_id@,
                    ) {
                        e == FederationError::Storage(StorageError::NotFound)
                    } else {
                        &&& !old(self)@.network.started
                        &&& e is Network
                    }
                },
            },
    {
        let now = unix_now();
        let r = self.sync_engine.announce_credential_link(
            &mut self.network,
            thread_id,
            link_id,
            now,
        );
        proof {
            if r is Ok {
                assert(final(self)@.network.commands == old(self)@.network.commands.push(
                    announced_link_cmd(
                        link_with_id(
                            links_for_thread_spec(old(self)@.engine.links, thread_id@),
                            link_id@,
                        ),
                        now,
                    ),
                ));
            }
        }
        r
    }

    /// Whether the service is up: the adapter started and the engine running.
    pub fn is_running(&self) -> (r: bool)
        ensures
            r == (self@.network.started && self@.engine.running),
    {
        self.network.is_started() && self.sync_engine.is_running()
    }

    /// The identities of the currently connected peers. Queryable whether or
    /// not the service is running, before the first start and after a stop.
    pub fn known_peers(&self) -> (r: Result<Vec<String>, FederationError>)
        ensures
            r is Ok,
            r.unwrap().deep_view() == self@.network.peers,
    {
        match self.network.known_peers() {
            Ok(v) => Ok(v),
            Err(_) => Err(FederationError::Network(String::new())),
        }
    }

    /// Creates a thread row locally, under a caller-chosen id, stamped with
    /// the current time.
    pub fn create_local_thread(&mut self, id: String, title: String, proposal_cid: Option<String>)
        -> (r: Result<Thread, StorageError>)
        requires
            old(self).wf(),
        ensures
            final(self).wf(),
            final(self)@.network == old(self)@.network,
            final(self)@.engine.links == old(self)@.engine.links,
            final(self)@.engine.local_did == old(self)@.engine.local_did,
            final(self)@.engine.running == old(self)@.engine.running,
            final(self)@.bootstrap == old(self)@.bootstrap,
            final(self)@.discovery_running == old(self)@.discovery_running,
            match r {
                Ok(t) => {
                    &&& !has_thread_id(old(self)@.engine.threads, id@)
                    &&& t@.id == id@
                    &&& t@.title == title@
                    &&& t@.proposal_cid == crate::protocol::opt_str_view(&proposal_cid)
                    &&& final(self)@.engine.threads == old(self)@.engine.threads.push(t@)
                },
                Err(e) => {
                    &&& has_thread_id(old(self)@.engine.threads, id@)
                    &&& e is Database
                    &&& final(self)@.engine.threads == old(self)@.engine.threads
                },
            },
    {
        let now = unix_now();
        self.sync_engine.create_local_thread(id, title, proposal_cid, now)
    }

    /// Creates a credential link row locally, under a caller-chosen id,
    /// stamped with the current time; a row that repeats an existing triple
    /// is returned unchanged instead of being duplicated.
    pub fn create_local_credential_link(
        &mut self,
        id: String,
        thread_id: String,
        credential_cid: String,
        linked_by: String,
    ) -> (r: Result<CredentialLink, StorageError>)
        requires
            old(self).wf(),
        ensures
            final(self).wf(),
            final(self)@.network == old(self)@.network,
            final(self)@.engine.threads == old(self)@.engine.threads,
            final(self)@.engine.local_did == old(self)@.engine.local_did,
            final(self)@.engine.running == old(self)@.engine.running,
            final(self)@.bootstrap == old(self)@.bootstrap,
            final(self)@.discovery_running == old(self)@.discovery_running,
            match r {
                Ok(l) => {
                    if crate::store::has_link_triple(
                        old(self)@.engine.links,
                        thread_id@,
                        credential_cid@,
                        linked_by@,
                    ) {
                        &&& final(self)@.engine.links == old(self)@.engine.links
                        &&& l@ == old(self)@.engine.links[crate::store::link_triple_index(
                            old(self)@.engine.links,
                            thread_id@,
                            credential_cid@,
                            linked_by@,
                        )]
                    } else {
                        &&& !has_link_id(old(self)@.engine.links, id@)
                        &&& l@.id == id@
                        &&& l@.thread_id == thread_id@
                        &&& l@.credential_cid == credential_cid@
                        &&& l@.linked_by == linked_by@
                        &&& final(self)@.engine.links == old(self)@.engine.links.push(l@)
                    }
                },
                Err(e) => {
                    &&& e is Database
                    &&& final(self)@.engine.links == old(self)@.engine.links
                },
            },
    {
        let now = unix_now();
        self.sync_engine.create_local_credential_link(
            id,
            thread_id,
            credential_cid,
            linked_by,
            now,
        )
    }

    /// Looks a stored thread up by id.
    pub fn get_thread(&self, id: &str) -> (r: Result<Thread, StorageError>)
        requires
            self.wf(),
        ensures
            match r {
                Ok(t) => spec_get_thread(self@.engine.threads, id@) == Some(t@),
                Err(e) => e == StorageError::NotFound && !has_thread_id(self@.engine.threads, id@),
            },
    {
        self.sync_engine.get_thread(id)
    }

    /// The stored links of a thread, in insertion order.
    pub fn get_links_for_thread(&self, thread_id: &str) -> (r: Result<
        Vec<CredentialLink>,
        StorageError,
    >)
        requires
            self.wf(),
        ensures
            r is Ok,
            r.unwrap().deep_view() == links_for_thread_spec(self@.engine.links, thread_id@),
    {
        self.sync_engine.get_links_for_thread(thread_id)
    }

    /// Consumes the next adapter event, if any, and lets the engine handle
    /// it at the given instant. Returns whether an event was consumed.
    pub fn process_next_event(&mut self, now: i64) -> (r: bool)
        requires
            old(self).wf(),
        ensures
            final(self).wf(),
            final(self)@.engine.local_did == old(self)@.engine.local_did,
            final(self)@.engine.running == old(self)@.engine.running,
            final(self)@.network.started == old(self)@.network.started,
            final(self)@.network.peers == old(self)@.network.peers,
            final(self)@.bootstrap == old(self)@.bootstrap,
            final(self)@.discovery_running == old(self)@.discovery_running,
            !r ==> final(self)@ == old(self)@ && (old(self)@.network.started ==> old(
                self,
            )@.network.events.len() == 0),
            r ==> {
                &&& old(self)@.network.started
                &&& old(self)@.network.events.len() > 0
                &&& final(self)@.network.events == old(self)@.network.events.drop_first()
                &&& match old(self)@.network.events[0] {
                    crate::network::NetworkEventView::Message { peer_id, topic, data } => {
                        &&& final(self)@.engine.threads == spec_dispatch_state(
                            old(self)@.engine.threads,
                            old(self)@.engine.links,
                            topic,
                            data,
                        ).0
                        &&& final(self)@.engine.links == spec_dispatch_state(
                            old(self)@.engine.threads,
                            old(self)@.engine.links,
                            topic,
                            data,
                        ).1
                        &&& final(self)@.network.commands == old(self)@.network.commands
                            + spec_dispatch_publishes(
                            old(self)@.engine.threads,
                            old(self)@.engine.links,
                            old(self)@.engine.local_did,
                            topic,
                            data,
                            now,
                            old(self)@.network.started,
                        )
                    },
                    _ => {
                        &&& final(self)@.engine == old(self)@.engine
                        &&& final(self)@.network.commands == old(self)@.network.commands
                    },
                }
            },
    {
        let event = match self.network.next_event() {
            Some(e) => e,
            None => {
                return false;
            },
        };
        self.sync_engine.handle_event(&mut self.network, event, now);
        true
    }

    /// One periodic discovery round: dials the full bootstrap list again.
    pub fn discovery_tick(&mut self)
        requires
            old(self).wf(),
        ensures
            final(self).wf(),
            final(self)@.engine == old(self)@.engine,
            final(self)@.network.started == old(self)@.network.started,
            final(self)@.network.peers == old(self)@.network.peers,
            final(self)@.network.events == old(self)@.network.events,
            final(self)@.bootstrap == old(self)@.bootstrap,
            final(self)@.discovery_running == old(self)@.discovery_running,
            final(self)@.network.commands == old(self)@.network.commands + (
            if old(self)@.discovery_running && old(self)@.network.started {
                connect_commands(old(self)@.bootstrap)
            } else {
                Seq::<NetworkCommandView>::empty()
            }),
    {
        self.discovery.tick(&mut self.network);
    }

    /// Pulls the next command for the overlay runner, in submission order.
    pub fn next_command(&mut self) -> (r: Option<NetworkCommand>)
        requires
            old(self).wf(),
        ensures
            final(self).wf(),
            final(self)@.engine == old(self)@.engine,
            final(self)@.bootstrap == old(self)@.bootstrap,
            final(self)@.discovery_running == old(self)@.discovery_running,
            match r {
                Some(c) => {
                    &&& old(self)@.network.commands.len() > 0
                    &&& c@ == old(self)@.network.commands[0]
                    &&& final(self)@.network == (NetworkModel {
                        commands: old(self)@.network.commands.drop_first(),
                        ..old(self)@.network
                    })
                },
                None => {
                    &&& final(self)@.network == old(self)@.network
                    &&& old(self)@.network.commands.len() == 0
                },
            },
    {
        self.network.next_command()
    }

    /// Records a message notification from the overlay runner.
    pub fn notify_message(&mut self, peer_id: String, topic_name: &str, data: Vec<u8>)
        requires
            old(self).wf(),
        ensures
            final(self).wf(),
            final(self)@.engine == old(self)@.engine,
            final(self)@.bootstrap == old(self)@.bootstrap,
            final(self)@.discovery_running == old(self)@.discovery_running,
            final(self)@.network.started == old(self)@.network.started,
            final(self)@.network.commands == old(self)@.network.commands,
            final(self)@.network.peers == old(self)@.network.peers,
            match NetworkTopic::from_wire_spec(topic_name@) {
                Some(t) => final(self)@.network.events == old(self)@.network.events.push(
                    crate::network::NetworkEventView::Message {
                        peer_id: peer_id@,
                        topic: t,
                        data: data@,
                    },
                ),
                None => final(self)@.network == old(self)@.network,
            },
    {
        self.network.notify_message(peer_id, topic_name, data);
    }

    /// Records a connection-established notification from the overlay
    /// runner.
    pub fn notify_connection_established(&mut self, peer_id: String)
        requires
            old(self).wf(),
        ensures
            final(self).wf(),
            final(self)@.engine == old(self)@.engine,
            final(self)@.bootstrap == old(self)@.bootstrap,
            final(self)@.discovery_running == old(self)@.discovery_running,
            final(self)@.network.started == old(self)@.network.started,
            final(self)@.network.commands == old(self)@.network.commands,
            final(self)@.network.events == old(self)@.network.events.push(
                crate::network::NetworkEventView::PeerConnected(peer_id@),
            ),
            final(self).peers_set() == old(self).peers_set().insert(peer_id@),
    {
        self.network.notify_connection_established(peer_id);
    }

    /// Records a connection-closed notification from the overlay runner.
    pub fn notify_connection_closed(&mut self, peer_id: String)
        requires
            old(self).wf(),
        ensures
            final(self).wf(),
            final(self)@.engine == old(self)@.engine,
            final(self)@.bootstrap == old(self)@.bootstrap,
            final(self)@.discovery_running == old(self)@.discovery_running,
            final(self)@.network.started == old(self)@.network.started,
            final(self)@.network.commands == old(self)@.network.commands,
            final(self)@.network.events == old(self)@.network.events.push(
                crate::network::NetworkEventView::PeerDisconnected(peer_id@),
            ),
            final(self).peers_set() == old(self).peers_set().remove(peer_id@),
    {
        self.network.notify_connection_closed(peer_id);
    }
}

} // verus!
