//! Model of the transport adapter that owns the single connection to the
//! peer-to-peer overlay.
//!
//! The adapter presents the overlay as two unidirectional queues: a command
//! queue (inbound control: publish, connect, disconnect, stop) and an event
//! queue (outbound notifications: messages and peer lifecycle). It also
//! maintains the set of currently connected peers, which changes only on
//! connection-established and connection-closed notifications. The overlay
//! itself — dialing, gossip delivery, the cryptographic handshake — is an
//! external collaborator: a runner outside this crate drains the command
//! queue, performs each command against the real network, and feeds overlay
//! notifications back through the `notify_*` methods.
//!
//! The model holds both queues as sequences; the bounded channels (capacity
//! 32) and their backpressure belong to the runner that carries the two
//! queues across tasks.

use vstd::prelude::*;
use vstd::string::StringExecFns;
use vstd::seq_lib::*;

use crate::strcmp::str_eq;

verus! {

/// Errors that can occur in the network layer.
#[derive(Clone, PartialEq, Eq, Debug)]
pub enum NetworkError {
    /// Transport-level failure, carried as text.
    Transport(String),
    /// Swarm-level failure, including use of an adapter that was not started.
    Swarm(String),
    /// Failure of the publish/subscribe layer.
    Gossipsub(String),
    /// An I/O failure, carried as text.
    Io(String),
    /// A command could not be queued.
    Channel(String),
}

/// Topics of the publish/subscribe overlay: a closed enumeration, each with a
/// stable wire-level name.
#[derive(Clone, Copy, Debug, PartialEq, Eq, Hash, Structural)]
pub enum NetworkTopic {
    /// Announce new threads.
    ThreadAnnounce,
    /// Announce new credential links.
    CredentialLinkAnnounce,
    /// Request sync for a thread.
    ThreadSyncRequest,
}

impl NetworkTopic {
    /// The wire-level name of this topic, as characters.
    pub open spec fn spec_wire_name(self) -> Seq<char> {
        match self {
            NetworkTopic::ThreadAnnounce => "icn/threads/announce/v1"@,
            NetworkTopic::CredentialLinkAnnounce => "icn/links/announce/v1"@,
            NetworkTopic::ThreadSyncRequest => "icn/threads/sync/v1"@,
        }
    }

    /// The wire-level name of this topic.
    pub fn as_str(&self) -> (r: &'static str)
        ensures
            r@ == self.spec_wire_name(),
    {
        match self {
            NetworkTopic::ThreadAnnounce => "icn/threads/announce/v1",
            NetworkTopic::CredentialLinkAnnounce => "icn/links/announce/v1",
            NetworkTopic::ThreadSyncRequest => "icn/threads/sync/v1",
        }
    }

    /// Routing of a wire-level topic name, as a total mathematical function:
    /// a name that belongs to no topic maps to `None`.
    pub open spec fn from_wire_spec(name: Seq<char>) -> Option<NetworkTopic> {
        if name == NetworkTopic::ThreadAnnounce.spec_wire_name() {
            Some(NetworkTopic::ThreadAnnounce)
        } else if name == NetworkTopic::CredentialLinkAnnounce.spec_wire_name() {
            Some(NetworkTopic::CredentialLinkAnnounce)
        } else if name == NetworkTopic::ThreadSyncRequest.spec_wire_name() {
            Some(NetworkTopic::ThreadSyncRequest)
        } else {
            None
        }
    }

    /// Routes a wire-level topic name to the enumeration. Total: a name that
    /// belongs to no topic yields `None`, and the caller drops the message.
    pub fn from_wire(name: &str) -> (r: Option<NetworkTopic>)
        ensures
            r == NetworkTopic::from_wire_spec(name@),
    {
        if str_eq(name, "icn/threads/announce/v1") {
            Some(NetworkTopic::ThreadAnnounce)
        } else if str_eq(name, "icn/links/announce/v1") {
            Some(NetworkTopic::CredentialLinkAnnounce)
        } else if str_eq(name, "icn/threads/sync/v1") {
            Some(NetworkTopic::ThreadSyncRequest)
        } else {
            None
        }
    }
}

/// The three wire names are pairwise distinct, so the routing of
/// [`NetworkTopic::from_wire`] is unambiguous.
pub proof fn lemma_wire_names_distinct()
    ensures
        NetworkTopic::ThreadAnnounce.spec_wire_name()
            != NetworkTopic::CredentialLinkAnnounce.spec_wire_name(),
        NetworkTopic::ThreadAnnounce.spec_wire_name()
            != NetworkTopic::ThreadSyncRequest.spec_wire_name(),
        NetworkTopic::CredentialLinkAnnounce.spec_wire_name()
            != NetworkTopic::ThreadSyncRequest.spec_wire_name(),
{
    reveal_strlit("icn/threads/announce/v1");
    reveal_strlit("icn/links/announce/v1");
    reveal_strlit("icn/threads/sync/v1");
    assert("icn/threads/announce/v1"@.len() == 23);
    assert("icn/links/announce/v1"@.len() == 21);
    assert("icn/threads/sync/v1"@.len() == 19);
}

/// Peer set consistency: connecting a peer and then disconnecting it leaves
/// the peer set exactly as it began, and after a second, distinct peer
/// connects, disconnecting the first leaves exactly the second — one more
/// peer than before.
pub proof fn lemma_peer_set_consistency(s: Set<Seq<char>>, p: Seq<char>, q: Seq<char>)
    requires
        s.finite(),
        !s.contains(p),
        !s.contains(q),
        p != q,
    ensures
        s.insert(p).remove(p) == s,
        s.insert(p).insert(q).remove(p) == s.insert(q),
        s.insert(p).insert(q).remove(p).len() == s.len() + 1,
{
    assert(s.insert(p).remove(p) =~= s);
    assert(s.insert(p).insert(q).remove(p) =~= s.insert(q));
}

/// The number of peers the adapter reports equals the size of the peer set:
/// no peer is counted twice.
pub proof fn lemma_known_peers_count(net: FederationNetwork)
    requires
        net.wf(),
    ensures
        net@.peers.len() == net.peers_set().len(),
{
    net@.peers.unique_seq_to_set();
}

/// Finds the position of a peer identity in a list, comparing by characters.
fn find_peer(v: &Vec<String>, p: &String) -> (r: Option<usize>)
    ensures
        match r {
            Some(i) => i < v@.len() && v@[i as int]@ == p@,
            None => forall|k: int| 0 <= k < v@.len() ==> v@[k]@ != p@,
        },
{
    let mut i: usize = 0;
    while i < v.len()
        invariant
            i <= v@.len(),
            forall|k: int| 0 <= k < i ==> v@[k]@ != p@,
        decreases v@.len() - i,
    {
        if v[i] == *p {
            return Some(i);
        }
        i = i + 1;
    }
    None
}

/// Events surfaced by the adapter to its single consumer.
#[derive(Clone, PartialEq, Eq, Debug)]
pub enum NetworkEvent {
    /// Received a message on a topic.
    Message { peer_id: String, topic: NetworkTopic, data: Vec<u8> },
    /// New peer connected.
    PeerConnected(String),
    /// Peer disconnected.
    PeerDisconnected(String),
}

/// Commands consumed, in submission order, by the overlay runner.
#[derive(Clone, PartialEq, Eq, Debug)]
pub enum NetworkCommand {
    /// Publish a message to a topic.
    Publish { topic: NetworkTopic, data: Vec<u8> },
    /// Connect to a peer at the given overlay address.
    Connect(String),
    /// Disconnect from a peer.
    Disconnect(String),
    /// Stop the overlay loop.
    Stop,
}

/// Mathematical image of a [`NetworkEvent`].
#[verifier::ext_equal]
pub enum NetworkEventView {
    Message { peer_id: Seq<char>, topic: NetworkTopic, data: Seq<u8> },
    PeerConnected(Seq<char>),
    PeerDisconnected(Seq<char>),
}

/// Mathematical image of a [`NetworkCommand`].
#[verifier::ext_equal]
pub enum NetworkCommandView {
    Publish { topic: NetworkTopic, data: Seq<u8> },
    Connect(Seq<char>),
    Disconnect(Seq<char>),
    Stop,
}

impl View for NetworkEvent {
    type V = NetworkEventView;

    open spec fn view(&self) -> NetworkEventView {
        match self {
            NetworkEvent::Message { peer_id, topic, data } => NetworkEventView::Message {
                peer_id: peer_id@,
                topic: *topic,
                data: data@,
            },
            NetworkEvent::PeerConnected(p) => NetworkEventView::PeerConnected(p@),
            NetworkEvent::PeerDisconnected(p) => NetworkEventView::PeerDisconnected(p@),
        }
    }
}

impl DeepView for NetworkEvent {
    type V = NetworkEventView;

    open spec fn deep_view(&self) -> NetworkEventView {
        self.view()
    }
}

impl View for NetworkCommand {
    type V = NetworkCommandView;

    open spec fn view(&self) -> NetworkCommandView {
        match self {
            NetworkCommand::Publish { topic, data } => NetworkCommandView::Publish {
                topic: *topic,
                data: data@,
            },
            NetworkCommand::Connect(a) => NetworkCommandView::Connect(a@),
            NetworkCommand::Disconnect(p) => NetworkCommandView::Disconnect(p@),
            NetworkCommand::Stop => NetworkCommandView::Stop,
        }
    }
}

impl DeepView for NetworkCommand {
    type V = NetworkCommandView;

    open spec fn deep_view(&self) -> NetworkCommandView {
        self.view()
    }
}

/// Mathematical image of the adapter: lifecycle flag, connected peers in
/// connection order, and the two queues.
#[verifier::ext_equal]
pub struct NetworkModel {
    pub started: bool,
    pub peers: Seq<Seq<char>>,
    pub commands: Seq<NetworkCommandView>,
    pub events: Seq<NetworkEventView>,
}

/// The transport adapter for peer-to-peer communication: the verified state
/// behind the overlay connection.
pub struct FederationNetwork {
    /// Identities of the currently connected peers, in connection order.
    known_peers: Vec<String>,
    /// Commands awaiting the overlay runner, in submission order.
    commands: Vec<NetworkCommand>,
    /// Events awaiting the consumer, in arrival order.
    events: Vec<NetworkEvent>,
    /// Whether `start` has run and `stop` has not run since.
    started: bool,
}

impl View for FederationNetwork {
    type V = NetworkModel;

    closed spec fn view(&self) -> NetworkModel {
        NetworkModel {
            started: self.started,
            peers: self.known_peers.deep_view(),
            commands: self.commands.deep_view(),
            events: self.events.deep_view(),
        }
    }
}

impl FederationNetwork {
    /// The set of currently connected peers.
    pub open spec fn peers_set(self) -> Set<Seq<char>> {
        self@.peers.to_set()
    }

    /// Well-formedness: no peer is recorded twice.
    pub open spec fn wf(self) -> bool {
        self@.peers.no_duplicates()
    }

    /// Creates an adapter that is not yet started, knows no peers, and has
    /// empty queues.
    pub fn new() -> (r: Result<FederationNetwork, NetworkError>)
        ensures
            r is Ok,
            r.unwrap().wf(),
            r.unwrap()@ == (NetworkModel {
                started: false,
                peers: Seq::<Seq<char>>::empty(),
                commands: Seq::<NetworkCommandView>::empty(),
                events: Seq::<NetworkEventView>::empty(),
            }),
    {
        let net = FederationNetwork {
            known_peers: Vec::new(),
            commands: Vec::new(),
            events: Vec::new(),
            started: false,
        };
        proof {
            assert(net@.peers =~= Seq::<Seq<char>>::empty());
            assert(net@.commands =~= Seq::<NetworkCommandView>::empty());
            assert(net@.events =~= Seq::<NetworkEventView>::empty());
        }
        Ok(net)
    }

    /// Whether the adapter is started.
    pub fn is_started(&self) -> (r: bool)
        ensures
            r == self@.started,
    {
        self.started
    }

    /// Starts the adapter: fresh queues, ready to accept commands. Calling
    /// it while running is a no-op, so starting is idempotent.
    pub fn start(&mut self) -> (r: Result<(), NetworkError>)
        requires
            old(self).wf(),
        ensures
            r is Ok,
            final(self).wf(),
            final(self)@.started,
            final(self)@.peers == old(self)@.peers,
            old(self)@.started ==> final(self)@ == old(self)@,
            !old(self)@.started ==> final(self)@ == (NetworkModel {
                started: true,
                peers: old(self)@.peers,
                commands: Seq::<NetworkCommandView>::empty(),
                events: Seq::<NetworkEventView>::empty(),
            }),
    {
        if self.started {
            return Ok(());
        }
        self.commands = Vec::new();
        self.events = Vec::new();
        self.started = true;
        proof {
            assert(self@.commands =~= Seq::<NetworkCommandView>::empty());
            assert(self@.events =~= Seq::<NetworkEventView>::empty());
        }
        Ok(())
    }

    /// Stops the adapter: queues a `Stop` command for the overlay runner and
    /// refuses further traffic. The peer set survives and stays queryable.
    pub fn stop(&mut self) -> (r: Result<(), NetworkError>)
        requires
            old(self).wf(),
        ensures
            r is Ok,
            final(self).wf(),
            !final(self)@.started,
            final(self)@.peers == old(self)@.peers,
            old(self)@.started ==> final(self)@.commands == old(self)@.commands.push(
                NetworkCommandView::Stop,
            ),
            !old(self)@.started ==> final(self)@ == old(self)@,
    {
        if !self.started {
            return Ok(());
        }
        self.commands.push(NetworkCommand::Stop);
        self.started = false;
        proof {
            assert(self@.commands =~= old(self)@.commands.push(NetworkCommandView::Stop));
        }
        Ok(())
    }

    /// Queues a publish command. Fails, leaving the adapter unchanged, if
    /// and only if the adapter is not started.
    pub fn publish(&mut self, topic: NetworkTopic, data: Vec<u8>) -> (r: Result<(), NetworkError>)
        requires
            old(self).wf(),
        ensures
            final(self).wf(),
            r is Ok <==> old(self)@.started,
            old(self)@.started ==> final(self)@ == (NetworkModel {
                commands: old(self)@.commands.push(
                    NetworkCommandView::Publish { topic, data: data@ },
                ),
                ..old(self)@
            }),
            !old(self)@.started ==> final(self)@ == old(self)@,
    {
        if !self.started {
            return Err(NetworkError::Swarm(String::from_str("network not started")));
        }
        self.commands.push(NetworkCommand::Publish { topic, data });
        proof {
            assert(self@ =~= (NetworkModel {
                commands: old(self)@.commands.push(
                    NetworkCommandView::Publish { topic, data: data@ },
                ),
                ..old(self)@
            }));
        }
        Ok(())
    }

    /// Queues a connect command for an overlay address; the dial itself is
    /// fire-and-forget. Fails if and only if the adapter is not started.
    pub fn connect(&mut self, addr: String) -> (r: Result<(), NetworkError>)
        requires
            old(self).wf(),
        ensures
            final(self).wf(),
            r is Ok <==> old(self)@.started,
            old(self)@.started ==> final(self)@ == (NetworkModel {
                commands: old(self)@.commands.push(NetworkCommandView::Connect(addr@)),
                ..old(self)@
            }),
            !old(self)@.started ==> final(self)@ == old(self)@,
    {
        if !self.started {
            return Err(NetworkError::Swarm(String::from_str("network not started")));
        }
        let ghost a = addr@;
        self.commands.push(NetworkCommand::Connect(addr));
        proof {
            assert(self@ =~= (NetworkModel {
                commands: old(self)@.commands.push(NetworkCommandView::Connect(a)),
                ..old(self)@
            }));
        }
        Ok(())
    }

    /// Queues a disconnect command. Fails if and only if the adapter is not
    /// started.
    pub fn disconnect(&mut self, peer_id: String) -> (r: Result<(), NetworkError>)
        requires
            old(self).wf(),
        ensures
            final(self).wf(),
            r is Ok <==> old(self)@.started,
            old(self)@.started ==> final(self)@ == (NetworkModel {
                commands: old(self)@.commands.push(NetworkCommandView::Disconnect(peer_id@)),
                ..old(self)@
            }),
            !old(self)@.started ==> final(self)@ == old(self)@,
    {
        if !self.started {
            return Err(NetworkError::Swarm(String::from_str("network not started")));
        }
        let ghost p = peer_id@;
        self.commands.push(NetworkCommand::Disconnect(peer_id));
        proof {
            assert(self@ =~= (NetworkModel {
                commands: old(self)@.commands.push(NetworkCommandView::Disconnect(p)),
                ..old(self)@
            }));
        }
        Ok(())
    }

    /// The identities of the currently connected peers. Queryable whether or
    /// not the adapter is running.
    pub fn known_peers(&self) -> (r: Result<Vec<String>, NetworkError>)
        ensures
            r is Ok,
            r.unwrap().deep_view() == self@.peers,
    {
        let mut out: Vec<String> = Vec::new();
        let mut i: usize = 0;
        while i < self.known_peers.len()
            invariant
                i <= self.known_peers.len(),
                out@.len() == i,
                forall|k: int| 0 <= k < i ==> out@[k]@ == self.known_peers@[k]@,
            decreases self.known_peers.len() - i,
        {
            let p = self.known_peers[i].clone();
            out.push(p);
            i = i + 1;
        }
        proof {
            assert(out.deep_view() =~= self@.peers);
        }
        Ok(out)
    }

    /// Records a connection-established notification from the overlay: the
    /// peer joins the set (once, however often it connects) and a
    /// `PeerConnected` event is queued.
    pub fn notify_connection_established(&mut self, peer_id: String)
        requires
            old(self).wf(),
        ensures
            final(self).wf(),
            final(self)@.started == old(self)@.started,
            final(self)@.commands == old(self)@.commands,
            final(self)@.events == old(self)@.events.push(
                NetworkEventView::PeerConnected(peer_id@),
            ),
            final(self).peers_set() == old(self).peers_set().insert(peer_id@),
            old(self).peers_set().contains(peer_id@) ==> final(self)@.peers == old(self)@.peers,
            !old(self).peers_set().contains(peer_id@) ==> final(self)@.peers == old(
                self,
            )@.peers.push(peer_id@),
    {
        let ghost oldp = self@.peers;
        let ghost p = peer_id@;
        match find_peer(&self.known_peers, &peer_id) {
            Some(idx) => {
                proof {
                    assert(oldp[idx as int] == p);
                    assert(old(self).peers_set().contains(p));
                    assert(self.peers_set() =~= old(self).peers_set().insert(p));
                }
            },
            None => {
                proof {
                    if old(self).peers_set().contains(p) {
                        let k = choose|k: int|
                            0 <= k < oldp.len() && oldp[k] == p;
                        assert(old(self)@.peers[k] == p);
                        assert(false);
                    }
                }
                self.known_peers.push(peer_id.clone());
                proof {
                    assert(self@.peers =~~= oldp.push(p));
                    assert forall|x: Seq<char>|
                        self@.peers.to_set().contains(x) <==> oldp.to_set().insert(p).contains(
                            x,
                        ) by {
                        if self@.peers.contains(x) {
                            let k = choose|k: int|
                                0 <= k < self@.peers.len() && self@.peers[k] == x;
                            if k < oldp.len() {
                                assert(oldp[k] == x);
                            }
                        }
                        if oldp.contains(x) {
                            let k = choose|k: int| 0 <= k < oldp.len() && oldp[k] == x;
                            assert(self@.peers[k] == x);
                        }
                        if x == p {
                            assert(self@.peers[oldp.len() as int] == x);
                        }
                    }
                    assert(self.peers_set() =~= old(self).peers_set().insert(p));
                    assert forall|i: int, j: int|
                        0 <= i < j < self@.peers.len() implies self@.peers[i]
                        != self@.peers[j] by {
                        if j == oldp.len() {
                            assert(oldp[i] == self@.peers[i]);
                        }
                    }
                }
            },
        }
        self.events.push(NetworkEvent::PeerConnected(peer_id));
        proof {
            assert(self@.events =~~= old(self)@.events.push(NetworkEventView::PeerConnected(p)));
        }
    }

    /// Records a connection-closed notification from the overlay: the peer
    /// leaves the set and a `PeerDisconnected` event is queued.
    pub fn notify_connection_closed(&mut self, peer_id: String)
        requires
            old(self).wf(),
        ensures
            final(self).wf(),
            final(self)@.started == old(self)@.started,
            final(self)@.commands == old(self)@.commands,
            final(self)@.events == old(self)@.events.push(
                NetworkEventView::PeerDisconnected(peer_id@),
            ),
            final(self).peers_set() == old(self).peers_set().remove(peer_id@),
            !old(self).peers_set().contains(peer_id@) ==> final(self)@.peers == old(self)@.peers,
    {
        let ghost oldp = self@.peers;
        let ghost p = peer_id@;
        match find_peer(&self.known_peers, &peer_id) {
            Some(idx) => {
                proof {
                    assert(oldp[idx as int] == p);
                    assert(old(self).peers_set().contains(p));
                }
                self.known_peers.remove(idx);
                proof {
                    let newp = self@.peers;
                    assert(newp =~~= oldp.remove(idx as int));
                    oldp.remove_ensures(idx as int);
                    assert forall|x: Seq<char>|
                        newp.to_set().contains(x) <==> oldp.to_set().remove(p).contains(x) by {
                        if newp.contains(x) {
                            let k = choose|k: int| 0 <= k < newp.len() && newp[k] == x;
                            if k < idx {
                                assert(oldp[k] == x);
                            } else {
                                assert(oldp[k + 1] == x);
                            }
                            if x == p {
                                if k < idx {
                                    assert(oldp[k] == oldp[idx as int]);
                                    assert(false);
                                } else {
                                    assert(oldp[k + 1] == oldp[idx as int]);
                                    assert(false);
                                }
                            }
                        }
                        if oldp.contains(x) && x != p {
                            let k = choose|k: int| 0 <= k < oldp.len() && oldp[k] == x;
                            if k < idx {
                                assert(newp[k] == x);
                            } else {
                                assert(k != idx);
                                assert(newp[k - 1] == x);
                            }
                        }
                    }
                    assert(self.peers_set() =~= old(self).peers_set().remove(p));
                    assert forall|i: int, j: int|
                        0 <= i < j < newp.len() implies newp[i] != newp[j] by {
                        let i0: int = if i < idx {
                            i
                        } else {
                            i + 1
                        };
                        let j0: int = if j < idx {
                            j
                        } else {
                            j + 1
                        };
                        assert(newp[i] == oldp[i0]);
                        assert(newp[j] == oldp[j0]);
                    }
                }
            },
            None => {
                proof {
                    if old(self).peers_set().contains(p) {
                        let k = choose|k: int| 0 <= k < oldp.len() && oldp[k] == p;
                        assert(old(self)@.peers[k] == p);
                        assert(false);
                    }
                    assert(self.peers_set() =~= old(self).peers_set().remove(p));
                }
            },
        }
        self.events.push(NetworkEvent::PeerDisconnected(peer_id));
        proof {
            assert(self@.events =~~= old(self)@.events.push(
                NetworkEventView::PeerDisconnected(p),
            ));
        }
    }

    /// Records a message notification from the overlay. The wire topic name
    /// is routed through the closed topic enumeration; a message on an
    /// unknown topic is dropped here, before it reaches any consumer.
    pub fn notify_message(&mut self, peer_id: String, topic_name: &str, data: Vec<u8>)
        requires
            old(self).wf(),
        ensures
            final(self).wf(),
            final(self)@.started == old(self)@.started,
            final(self)@.commands == old(self)@.commands,
            final(self)@.peers == old(self)@.peers,
            match NetworkTopic::from_wire_spec(topic_name@) {
                Some(t) => final(self)@.events == old(self)@.events.push(
                    NetworkEventView::Message { peer_id: peer_id@, topic: t, data: data@ },
                ),
                None => final(self)@ == old(self)@,
            },
    {
        let ghost p = peer_id@;
        let ghost d = data@;
        match NetworkTopic::from_wire(topic_name) {
            Some(topic) => {
                self.events.push(NetworkEvent::Message { peer_id, topic, data });
                proof {
                    assert(self@.events =~~= old(self)@.events.push(
                        NetworkEventView::Message { peer_id: p, topic, data: d },
                    ));
                }
            },
            None => {},
        }
    }

    /// Pulls the next event, in arrival order, or nothing if the adapter is
    /// not started or no event is pending.
    pub fn next_event(&mut self) -> (r: Option<NetworkEvent>)
        requires
            old(self).wf(),
        ensures
            final(self).wf(),
            match r {
                Some(e) => {
                    &&& old(self)@.started
                    &&& old(self)@.events.len() > 0
                    &&& e@ == old(self)@.events[0]
                    &&& final(self)@ == (NetworkModel {
                        events: old(self)@.events.drop_first(),
                        ..old(self)@
                    })
                },
                None => {
                    &&& final(self)@ == old(self)@
                    &&& old(self)@.started ==> old(self)@.events.len() == 0
                },
            },
    {
        if !self.started {
            return None;
        }
        if self.events.len() == 0 {
            return None;
        }
        let e = self.events.remove(0);
        proof {
            assert(self@.events =~= old(self)@.events.drop_first());
            assert(self@ =~= (NetworkModel { events: old(self)@.events.drop_first(), ..old(
                self,
            )@ }));
        }
        Some(e)
    }

    /// Pulls the next command for the overlay runner, in submission order.
    pub fn next_command(&mut self) -> (r: Option<NetworkCommand>)
        requires
            old(self).wf(),
        ensures
            final(self).wf(),
            match r {
                Some(c) => {
                    &&& old(self)@.commands.len() > 0
                    &&& c@ == old(self)@.commands[0]
                    &&& final(self)@ == (NetworkModel {
                        commands: old(self)@.commands.drop_first(),
                        ..old(self)@
                    })
                },
                None => {
                    &&& final(self)@ == old(self)@
                    &&& old(self)@.commands.len() == 0
                },
            },
    {
        if self.commands.len() == 0 {
            return None;
        }
        let c = self.commands.remove(0);
        proof {
            assert(self@.commands =~= old(self)@.commands.drop_first());
            assert(self@ =~= (NetworkModel { commands: old(self)@.commands.drop_first(), ..old(
                self,
            )@ }));
        }
        Some(c)
    }
}

} // verus!
