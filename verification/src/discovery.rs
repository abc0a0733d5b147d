//! Peer discovery: keeps the node reachable within the overlay without
//! operator intervention.
//!
//! The algorithm is a deliberately simple floor: on start, dial every address
//! in a static bootstrap list; then, on a fixed period, repeat the same round
//! against the full list unconditionally. An address already connected is a
//! harmless redundant dial, connect failures are swallowed by the adapter's
//! fire-and-forget policy, and an address the overlay cannot parse is skipped
//! by the overlay runner.

use vstd::prelude::*;
use vstd::string::StringExecFns;

use crate::network::{FederationNetwork, NetworkCommandView, NetworkError};

verus! {

/// The bootstrap addresses this build dials, in standard multi-segment
/// notation (protocol, host, port, peer id).
pub fn default_bootstrap_nodes() -> (r: Vec<String>)
    ensures
        r.deep_view() =~= seq![
            "/ip4/52.23.211.129/tcp/4001/p2p/QmZEbqRC6qSTEeNqVNKmqk8smzMgr3mLPHAYZHQMwmKdKT"@,
            "/ip4/34.212.34.77/tcp/4001/p2p/QmNSYxZAiJHeLdkBg38roksAR9So7Y5eojks1yjEcUtZ7i"@,
        ],
{
    let mut v: Vec<String> = Vec::new();
    v.push(
        String::from_str(
            "/ip4/52.23.211.129/tcp/4001/p2p/QmZEbqRC6qSTEeNqVNKmqk8smzMgr3mLPHAYZHQMwmKdKT",
        ),
    );
    v.push(
        String::from_str(
            "/ip4/34.212.34.77/tcp/4001/p2p/QmNSYxZAiJHeLdkBg38roksAR9So7Y5eojks1yjEcUtZ7i",
        ),
    );
    v
}

/// The connect commands one dial round queues: one per bootstrap address, in
/// list order.
pub open spec fn connect_commands(addrs: Seq<Seq<char>>) -> Seq<NetworkCommandView> {
    addrs.map_values(|a: Seq<char>| NetworkCommandView::Connect(a))
}

/// Mathematical image of the discovery service.
#[verifier::ext_equal]
pub struct PeerDiscoveryModel {
    pub bootstrap: Seq<Seq<char>>,
    pub running: bool,
}

/// Peer discovery service.
pub struct PeerDiscovery {
    /// The static bootstrap list.
    bootstrap: Vec<String>,
    /// Whether the periodic task is scheduled.
    running: bool,
}

impl View for PeerDiscovery {
    type V = PeerDiscoveryModel;

    closed spec fn view(&self) -> PeerDiscoveryModel {
        PeerDiscoveryModel { bootstrap: self.bootstrap.deep_view(), running: self.running }
    }
}

impl PeerDiscovery {
    /// A stopped discovery service over the given bootstrap list.
    pub fn new(bootstrap: Vec<String>) -> (r: PeerDiscovery)
        ensures
            r@ == (PeerDiscoveryModel { bootstrap: bootstrap.deep_view(), running: false }),
    {
        PeerDiscovery { bootstrap, running: false }
    }

    /// One dial round: queues a connect command for every bootstrap address.
    /// With a stopped adapter every dial fails, is swallowed, and nothing is
    /// queued.
    pub fn dial_bootstrap(&self, net: &mut FederationNetwork)
        requires
            old(net).wf(),
        ensures
            final(net).wf(),
            final(net)@.started == old(net)@.started,
            final(net)@.peers == old(net)@.peers,
            final(net)@.events == old(net)@.events,
            final(net)@.commands == old(net)@.commands + (
            if old(net)@.started {
                connect_commands(self@.bootstrap)
            } else {
                Seq::<NetworkCommandView>::empty()
            }),
    {
        let ghost expected: Seq<NetworkCommandView> = if old(net)@.started {
            connect_commands(self@.bootstrap)
        } else {
            Seq::<NetworkCommandView>::empty()
        };
        let mut i: usize = 0;
        while i < self.bootstrap.len()
            invariant
                i <= self.bootstrap@.len(),
                net.wf(),
                net@.started == old(net)@.started,
                net@.peers == old(net)@.peers,
                net@.events == old(net)@.events,
                expected == (if old(net)@.started {
                    connect_commands(self@.bootstrap)
                } else {
                    Seq::<NetworkCommandView>::empty()
                }),
                net@.commands == old(net)@.commands + (
                if old(net)@.started {
                    connect_commands(self@.bootstrap).subrange(0, i as int)
                } else {
                    Seq::<NetworkCommandView>::empty()
                }),
            decreases self.bootstrap@.len() - i,
        {
            let addr = self.bootstrap[i].clone();
            proof {
                assert(addr@ == self@.bootstrap[i as int]);
            }
            let outcome = net.connect(addr);
            proof {
                if old(net)@.started {
                    assert(net@.commands =~= old(net)@.commands + connect_commands(
                        self@.bootstrap,
                    ).subrange(0, i as int + 1));
                }
            }
            i = i + 1;
        }
        proof {
            if old(net)@.started {
                assert(connect_commands(self@.bootstrap).subrange(
                    0,
                    self@.bootstrap.len() as int,
                ) =~= connect_commands(self@.bootstrap));
            } else {
                assert(net@.commands =~= old(net)@.commands
                    + Seq::<NetworkCommandView>::empty());
            }
        }
    }

    /// Starts the service: marks it running and performs the initial dial
    /// round. Starting a running service is a no-op.
    pub fn start(&mut self, net: &mut FederationNetwork) -> (r: Result<(), NetworkError>)
        requires
            old(net).wf(),
        ensures
            r is Ok,
            final(net).wf(),
            final(self)@.bootstrap == old(self)@.bootstrap,
            final(self)@.running,
            final(net)@.started == old(net)@.started,
            final(net)@.peers == old(net)@.peers,
            final(net)@.events == old(net)@.events,
            final(net)@.commands == old(net)@.commands + (
            if !old(self)@.running && old(net)@.started {
                connect_commands(old(self)@.bootstrap)
            } else {
                Seq::<NetworkCommandView>::empty()
            }),
    {
        if self.running {
            proof {
                assert(final(net)@.commands =~= old(net)@.commands
                    + Seq::<NetworkCommandView>::empty());
            }
            return Ok(());
        }
        self.running = true;
        self.dial_bootstrap(net);
        Ok(())
    }

    /// One periodic round: dials the full bootstrap list again if the
    /// service is running, and does nothing if it is stopped.
    pub fn tick(&self, net: &mut FederationNetwork)
        requires
            old(net).wf(),
        ensures
            final(net).wf(),
            final(net)@.started == old(net)@.started,
            final(net)@.peers == old(net)@.peers,
            final(net)@.events == old(net)@.events,
            final(net)@.commands == old(net)@.commands + (
            if self@.running && old(net)@.started {
                connect_commands(self@.bootstrap)
            } else {
                Seq::<NetworkCommandView>::empty()
            }),
    {
        if self.running {
            self.dial_bootstrap(net);
        } else {
            proof {
                assert(final(net)@.commands =~= old(net)@.commands
                    + Seq::<NetworkCommandView>::empty());
            }
        }
    }

    /// Stops the service: the periodic task is cancelled, outstanding dials
    /// are abandoned. Stopping a stopped service is a no-op.
    pub fn stop(&mut self) -> (r: Result<(), NetworkError>)
        ensures
            r is Ok,
            final(self)@.bootstrap == old(self)@.bootstrap,
            !final(self)@.running,
    {
        self.running = false;
        Ok(())
    }
}

} // verus!
