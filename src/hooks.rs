use vstd::prelude::*;

use crate::manager::NetworkManager;
use crate::peer::{has_live_transport, ExtraData, PairingStage, Peer, PeerId, PeerMetadata};
use crate::registry::{
    connect, disconnect, discover, expire, finish, in_stage, index_of, time_out,
    DisconnectOutcome, DiscoveryOutcome, ExpiryOutcome, PairingResolution,
};

verus! {

/// The behaviour an application built on this core plugs in. The
/// notification hooks default to doing nothing.
pub trait P2PManager {
    /// An inbound bidirectional byte stream, handed over as it arrived.
    type Stream;

    /// The local node's metadata, sent in discovery announcements.
    fn get_metadata(&self) -> PeerMetadata;

    /// A peer was discovered for the first time.
    fn peer_discovered(&mut self, nm: &NetworkManager, peer_id: PeerId) {
    }

    /// A peer's record was removed after it stopped announcing itself.
    fn peer_expired(&mut self, nm: &NetworkManager, peer_id: PeerId) {
    }

    /// A transport connection with a peer came up.
    fn peer_connected(&mut self, nm: &NetworkManager, peer_id: PeerId) {
    }

    /// A transport connection with a peer went down.
    fn peer_disconnected(&mut self, nm: &NetworkManager, peer_id: PeerId) {
    }

    /// Decides on a pairing request and performs its side effects.
    fn peer_paired(&mut self, nm: &NetworkManager, peer_id: PeerId, extra_data: &ExtraData) -> Result<
        (),
        (),
    >;

    /// Undoes what `peer_paired` may have done; must not fail.
    fn peer_paired_rollback(&mut self, nm: &NetworkManager, peer_id: PeerId, extra_data: &ExtraData);

    /// Takes over an inbound stream from a known peer.
    fn accept_stream(&mut self, peer: &Peer, stream: Self::Stream) {
    }
}

impl NetworkManager {
    /// Applies an announcement, then runs the discovered hook for a new peer.
    pub fn handle_discovered<M: P2PManager>(
        &mut self,
        app: &mut M,
        id: PeerId,
        address: String,
        metadata: PeerMetadata,
        now: u64,
    ) -> (r: DiscoveryOutcome)
        requires
            old(self).wf(),
        ensures
            final(self).wf(),
            final(self).same_config(old(self)),
            (final(self)@, r) == discover(old(self)@, old(self).app_name(), id, address, metadata, now),
    {
        let r = self.on_peer_discovered(id, address, metadata, now);
        if let DiscoveryOutcome::Inserted = r {
            app.peer_discovered(self, id);
        }
        r
    }

    /// Applies a transport connection, then runs the connected hook when the
    /// peer became connected.
    pub fn handle_connected<M: P2PManager>(&mut self, app: &mut M, id: PeerId) -> (r: bool)
        requires
            old(self).wf(),
        ensures
            final(self).wf(),
            final(self).same_config(old(self)),
            (final(self)@, r) == connect(old(self)@, id),
    {
        let r = self.on_transport_connected(id);
        if r {
            app.peer_connected(self, id);
        }
        r
    }

    /// Applies a transport disconnect: the rollback hook of an active session
    /// runs first, then the disconnected hook.
    pub fn handle_disconnected<M: P2PManager>(&mut self, app: &mut M, id: PeerId) -> (r:
        DisconnectOutcome)
        requires
            old(self).wf(),
        ensures
            final(self).wf(),
            final(self).same_config(old(self)),
            (final(self)@, r) == disconnect(old(self)@, id),
    {
        let r = self.on_transport_disconnected(id);
        if let DisconnectOutcome::Disconnected(data) = &r {
            if let Some(extra) = data {
                app.peer_paired_rollback(self, id, extra);
            }
            app.peer_disconnected(self, id);
        }
        r
    }

    /// Applies an expiry check: when the peer is removed, the rollback hook of
    /// its session runs first, then the expired hook.
    pub fn handle_expired<M: P2PManager>(&mut self, app: &mut M, id: PeerId, now: u64) -> (r:
        ExpiryOutcome)
        requires
            old(self).wf(),
        ensures
            final(self).wf(),
            final(self).same_config(old(self)),
            (final(self)@, r) == expire(old(self)@, id, now, old(self).ttl()),
    {
        let r = self.on_peer_expired(id, now);
        if let ExpiryOutcome::Removed(data) = &r {
            if let Some(extra) = data {
                app.peer_paired_rollback(self, id, extra);
            }
            app.peer_expired(self, id);
        }
        r
    }

    /// Runs the application's accept hook on the session of `id` that awaits
    /// it, and applies its answer; a refusal runs the rollback hook. Without
    /// such a session nothing runs.
    pub fn run_pairing_accept<M: P2PManager>(&mut self, app: &mut M, id: PeerId) -> (r:
        PairingResolution)
        requires
            old(self).wf(),
        ensures
            final(self).wf(),
            final(self).same_config(old(self)),
            !in_stage(old(self)@, id, PairingStage::AwaitingApplicationAccept) ==> (final(self)@, r)
                == finish(old(self)@, id, false),
            exists|accepted: bool| (final(self)@, r) == finish(old(self)@, id, accepted),
    {
        let answer = match self.get_peer(id) {
            Some(p) => match &p.session {
                Some(ss) => {
                    if ss.stage == PairingStage::AwaitingApplicationAccept {
                        Some(app.peer_paired(self, id, &ss.extra_data))
                    } else {
                        None
                    }
                },
                None => None,
            },
            None => None,
        };
        let accepted = match answer {
            Some(Ok(())) => true,
            _ => false,
        };
        let r = self.on_pairing_answered(id, accepted);
        if let PairingResolution::RolledBack(extra) = &r {
            app.peer_paired_rollback(self, id, extra);
        }
        r
    }

    /// Applies the pairing time limit to `id` at time `now`; a session rolled
    /// back for it runs the rollback hook.
    pub fn handle_pairing_timeout<M: P2PManager>(&mut self, app: &mut M, id: PeerId, now: u64) -> (r:
        Option<ExtraData>)
        requires
            old(self).wf(),
        ensures
            final(self).wf(),
            final(self).same_config(old(self)),
            (final(self)@, r) == time_out(old(self)@, id, now, old(self).pairing_limit()),
    {
        let r = self.check_pairing_timeout(id, now);
        if let Some(extra) = &r {
            app.peer_paired_rollback(self, id, extra);
        }
        r
    }

    /// Hands an inbound stream from `id` to the stream-accept hook when the
    /// peer is known with a live transport; otherwise the stream is dropped.
    /// The result tells which happened.
    pub fn handle_stream<M: P2PManager>(&self, app: &mut M, id: PeerId, stream: M::Stream) -> (r:
        bool)
        requires
            self.wf(),
        ensures
            r <==> index_of(self@, id) >= 0 && has_live_transport(self@[index_of(self@, id)]),
    {
        match self.accept_stream(id) {
            Some(peer) => {
                app.accept_stream(peer, stream);
                true
            },
            None => false,
        }
    }
}

} // verus!
