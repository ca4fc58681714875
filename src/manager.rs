use vstd::prelude::*;

use crate::peer::{
    has_live_transport, session_consistent, ExtraData, PairingSession, PairingStage, Peer, PeerId,
    PeerMetadata, PeerState,
};
use crate::registry::{
    acknowledge, begin, connect, connect_attempt, disconnect, discover, expire, finish, index_of,
    lemma_discover_wf, lemma_index_of, lemma_reinsert, lemma_remove_wf, lemma_rollback_wf,
    lemma_update_wf, registry_wf, rollback, time_out,
    DisconnectOutcome, DiscoveryOutcome, ExpiryOutcome, PairingError, PairingResolution,
};

verus! {

/// The single owner of the peer registry. Every handler applies one event
/// to the registry and returns what the runtime must do next; the hooks it
/// names run after the registry holds the new state.
pub struct NetworkManager {
    application_name: String,
    peer_ttl: u64,
    pairing_timeout: u64,
    peers: Vec<Peer>,
}

impl View for NetworkManager {
    type V = Seq<Peer>;

    /// The registry's records.
    closed spec fn view(&self) -> Seq<Peer> {
        self.peers@
    }
}

impl NetworkManager {
    /// The identity of the local application; peers announcing another are ignored.
    pub closed spec fn app_name(&self) -> Seq<char> {
        self.application_name@
    }

    /// How long a peer stays without a refreshing announcement.
    pub closed spec fn ttl(&self) -> u64 {
        self.peer_ttl
    }

    /// How long a pairing session may wait before it is rolled back.
    pub closed spec fn pairing_limit(&self) -> u64 {
        self.pairing_timeout
    }

    /// The registry is well formed.
    pub open spec fn wf(&self) -> bool {
        registry_wf(self@)
    }

    /// The configuration is the same in `self` and `other`.
    pub open spec fn same_config(&self, other: &NetworkManager) -> bool {
        &&& self.app_name() == other.app_name()
        &&& self.ttl() == other.ttl()
        &&& self.pairing_limit() == other.pairing_limit()
    }

    /// A manager with an empty registry.
    pub fn new(application_name: String, peer_ttl: u64, pairing_timeout: u64) -> (r:
        NetworkManager)
        ensures
            r.wf(),
            r@ == Seq::<Peer>::empty(),
            r.app_name() == application_name@,
            r.ttl() == peer_ttl,
            r.pairing_limit() == pairing_timeout,
    {
        NetworkManager { application_name, peer_ttl, pairing_timeout, peers: Vec::new() }
    }

    /// The identity of the local application.
    pub fn application_name(&self) -> (r: &str)
        ensures
            r@ == self.app_name(),
    {
        self.application_name.as_str()
    }

    /// The number of known peers.
    pub fn peer_count(&self) -> (r: usize)
        ensures
            r == self@.len(),
    {
        self.peers.len()
    }

    /// Position of the record of `id`.
    fn find(&self, id: PeerId) -> (r: Option<usize>)
        requires
            self.wf(),
        ensures
            match r {
                Some(i) => i == index_of(self@, id) && i < self@.len(),
                None => index_of(self@, id) < 0,
            },
    {
        proof {
            lemma_index_of(self@, id);
        }
        let mut i: usize = 0;
        while i < self.peers.len()
            invariant
                self.wf(),
                i <= self.peers@.len(),
                forall|j: int| 0 <= j < i ==> self.peers@[j].id != id,
            decreases self.peers@.len() - i,
        {
            if self.peers[i].id == id {
                return Some(i);
            }
            i = i + 1;
        }
        None
    }

    /// The record of `id`, if the peer is known.
    pub fn get_peer(&self, id: PeerId) -> (r: Option<&Peer>)
        requires
            self.wf(),
        ensures
            index_of(self@, id) < 0 ==> r is None,
            index_of(self@, id) >= 0 ==> r == Some(&self@[index_of(self@, id)]),
    {
        match self.find(id) {
            Some(i) => Some(&self.peers[i]),
            None => None,
        }
    }

    /// Takes the record at `i` out, to be put back by `restore`.
    fn take(&mut self, i: usize) -> (p: Peer)
        requires
            i < old(self)@.len(),
        ensures
            p == old(self)@[i as int],
            final(self)@ == old(self)@.remove(i as int),
            final(self).same_config(old(self)),
    {
        self.peers.remove(i)
    }

    /// Puts a record back at `i`.
    fn restore(&mut self, i: usize, p: Peer)
        requires
            i <= old(self)@.len(),
        ensures
            final(self)@ == old(self)@.insert(i as int, p),
            final(self).same_config(old(self)),
    {
        self.peers.insert(i, p);
    }

    /// Moves the peer at `i` to `state`, other fields unchanged.
    fn set_state_at(&mut self, i: usize, state: PeerState)
        requires
            old(self).wf(),
            i < old(self)@.len(),
            session_consistent(Peer { state, ..old(self)@[i as int] }),
        ensures
            final(self).wf(),
            final(self)@ == old(self)@.update(i as int, Peer { state, ..old(self)@[i as int] }),
            final(self).same_config(old(self)),
    {
        let ghost s = self@;
        let mut p = self.take(i);
        p.state = state;
        self.restore(i, p);
        proof {
            lemma_reinsert(s, i as int, Peer { state, ..s[i as int] });
            lemma_update_wf(s, i as int, Peer { state, ..s[i as int] });
        }
    }

    /// Handles an announcement of `id`, reachable at `address`, with `metadata`,
    /// received at time `now`. A new peer is recorded as discovered and the
    /// discovered hook is owed; a known one is refreshed without a hook.
    pub fn on_peer_discovered(
        &mut self,
        id: PeerId,
        address: String,
        metadata: PeerMetadata,
        now: u64,
    ) -> (r: DiscoveryOutcome)
        requires
            old(self).wf(),
        ensures
            final(self).wf(),
            final(self).same_config(old(self)),
            (final(self)@, r) == discover(old(self)@, old(self).app_name(), id, address, metadata, now),
    {
        let ghost s = self@;
        let ghost md = metadata;
        let ghost addr = address;
        proof {
            lemma_index_of(s, id);
            lemma_discover_wf(s, self.app_name(), id, address, metadata, now);
        }
        if !(metadata.application_name == self.application_name) {
            return DiscoveryOutcome::Ignored;
        }
        match self.find(id) {
            Some(i) => {
                let mut p = self.take(i);
                p.metadata = metadata;
                p.address = address;
                p.last_seen = now;
                if p.state == PeerState::Disconnected {
                    p.state = PeerState::Discovered;
                }
                self.restore(i, p);
                proof {
                    lemma_reinsert(s, i as int, self@[i as int]);
                }
                DiscoveryOutcome::Refreshed
            },
            None => {
                self.peers.push(
                    Peer {
                        id,
                        metadata,
                        address,
                        state: PeerState::Discovered,
                        last_seen: now,
                        session: None,
                    },
                );
                DiscoveryOutcome::Inserted
            },
        }
    }

    /// The runtime starts a connection to a discovered peer.
    pub fn on_connect_attempt(&mut self, id: PeerId) -> (r: bool)
        requires
            old(self).wf(),
        ensures
            final(self).wf(),
            final(self).same_config(old(self)),
            (final(self)@, r) == connect_attempt(old(self)@, id),
    {
        match self.find(id) {
            Some(i) => {
                if self.peers[i].state == PeerState::Discovered {
                    self.set_state_at(i, PeerState::Connecting);
                    true
                } else {
                    false
                }
            },
            None => false,
        }
    }

    /// The transport reports a connection with `id`. When this moves the peer
    /// to `Connected`, the result is true and the connected hook is owed.
    pub fn on_transport_connected(&mut self, id: PeerId) -> (r: bool)
        requires
            old(self).wf(),
        ensures
            final(self).wf(),
            final(self).same_config(old(self)),
            (final(self)@, r) == connect(old(self)@, id),
    {
        match self.find(id) {
            Some(i) => {
                let st = self.peers[i].state;
                if st == PeerState::Discovered || st == PeerState::Connecting {
                    self.set_state_at(i, PeerState::Connected);
                    true
                } else {
                    false
                }
            },
            None => false,
        }
    }
    /// Rolls back the session of the peer at `i`, if it has one.
    fn rollback_at(&mut self, i: usize) -> (r: Option<ExtraData>)
        requires
            old(self).wf(),
            i < old(self)@.len(),
        ensures
            final(self).wf(),
            final(self).same_config(old(self)),
            (final(self)@, r) == rollback(old(self)@, old(self)@[i as int].id),
    {
        let ghost s = self@;
        let ghost id = s[i as int].id;
        proof {
            lemma_index_of(s, id);
            lemma_rollback_wf(s, id);
        }
        if self.peers[i].session.is_none() {
            return None;
        }
        let mut p = self.take(i);
        let data = match p.session.take() {
            Some(ss) => Some(ss.extra_data),
            None => None,
        };
        p.state = PeerState::Connected;
        self.restore(i, p);
        proof {
            lemma_reinsert(s, i as int, self@[i as int]);
        }
        data
    }

    /// Rolls back the active pairing session of `id`. The result is the
    /// session's data, for the rollback hook, or `None` when no session was
    /// active: a second rollback of the same session does nothing.
    pub fn rollback_pairing(&mut self, id: PeerId) -> (r: Option<ExtraData>)
        requires
            old(self).wf(),
        ensures
            final(self).wf(),
            final(self).same_config(old(self)),
            (final(self)@, r) == rollback(old(self)@, id),
    {
        proof {
            lemma_index_of(self@, id);
        }
        match self.find(id) {
            Some(i) => self.rollback_at(i),
            None => None,
        }
    }

    /// The transport reports that `id` disconnected. An active pairing session
    /// is rolled back first; its data comes back so that the rollback hook
    /// runs before the disconnected hook.
    pub fn on_transport_disconnected(&mut self, id: PeerId) -> (r: DisconnectOutcome)
        requires
            old(self).wf(),
        ensures
            final(self).wf(),
            final(self).same_config(old(self)),
            (final(self)@, r) == disconnect(old(self)@, id),
    {
        let ghost s = self@;
        proof {
            lemma_index_of(s, id);
            lemma_rollback_wf(s, id);
        }
        match self.find(id) {
            None => DisconnectOutcome::Unknown,
            Some(i) => {
                if self.peers[i].state == PeerState::Disconnected {
                    return DisconnectOutcome::AlreadyDisconnected;
                }
                let data = self.rollback_at(i);
                self.set_state_at(i, PeerState::Disconnected);
                DisconnectOutcome::Disconnected(data)
            },
        }
    }

    /// Starts pairing with the connected peer `id`, with `extra_data` for the
    /// request, at time `now`. The peer moves to `Pairing` with a session in
    /// stage `Requested`; the runtime then sends the request.
    pub fn begin_pairing(&mut self, id: PeerId, extra_data: ExtraData, now: u64) -> (r: Result<
        (),
        PairingError,
    >)
        requires
            old(self).wf(),
        ensures
            final(self).wf(),
            final(self).same_config(old(self)),
            (final(self)@, r) == begin(old(self)@, id, extra_data, now),
    {
        let ghost s = self@;
        proof {
            lemma_index_of(s, id);
        }
        let i = match self.find(id) {
            Some(i) => i,
            None => return Err(PairingError::NotConnected),
        };
        let st = self.peers[i].state;
        if st == PeerState::Pairing || st == PeerState::Paired {
            return Err(PairingError::AlreadyPairing);
        }
        if st != PeerState::Connected {
            return Err(PairingError::NotConnected);
        }
        let mut p = self.take(i);
        p.state = PeerState::Pairing;
        p.session = Some(
            PairingSession { extra_data, started_at: now, stage: PairingStage::Requested },
        );
        self.restore(i, p);
        proof {
            lemma_reinsert(s, i as int, self@[i as int]);
            lemma_update_wf(s, i as int, self@[i as int]);
        }
        Ok(())
    }

    /// The remote acknowledged the pairing request of `id`. When the session
    /// was in stage `Requested` it now awaits the application, the result is
    /// true and the accept hook is owed, with the session's data.
    pub fn on_pairing_acknowledged(&mut self, id: PeerId) -> (r: bool)
        requires
            old(self).wf(),
        ensures
            final(self).wf(),
            final(self).same_config(old(self)),
            (final(self)@, r) == acknowledge(old(self)@, id),
    {
        let ghost s = self@;
        proof {
            lemma_index_of(s, id);
        }
        let i = match self.find(id) {
            Some(i) => i,
            None => return false,
        };
        let requested = match &self.peers[i].session {
            Some(ss) => ss.stage == PairingStage::Requested,
            None => false,
        };
        if !requested {
            return false;
        }
        let mut p = self.take(i);
        p.session = match p.session {
            Some(ss) => Some(
                PairingSession {
                    extra_data: ss.extra_data,
                    started_at: ss.started_at,
                    stage: PairingStage::AwaitingApplicationAccept,
                },
            ),
            None => None,
        };
        self.restore(i, p);
        proof {
            lemma_reinsert(s, i as int, self@[i as int]);
            lemma_update_wf(s, i as int, self@[i as int]);
        }
        true
    }

    /// The application's accept hook for `id` answered. On acceptance the peer
    /// is paired; otherwise the session is rolled back and its data returned
    /// for the rollback hook. A stale answer, with no session awaiting the
    /// application, changes nothing.
    pub fn on_pairing_answered(&mut self, id: PeerId, accepted: bool) -> (r: PairingResolution)
        requires
            old(self).wf(),
        ensures
            final(self).wf(),
            final(self).same_config(old(self)),
            (final(self)@, r) == finish(old(self)@, id, accepted),
    {
        let ghost s = self@;
        proof {
            lemma_index_of(s, id);
        }
        let i = match self.find(id) {
            Some(i) => i,
            None => return PairingResolution::NoSession,
        };
        let awaiting = match &self.peers[i].session {
            Some(ss) => ss.stage == PairingStage::AwaitingApplicationAccept,
            None => false,
        };
        if !awaiting {
            return PairingResolution::NoSession;
        }
        if accepted {
            let mut p = self.take(i);
            p.state = PeerState::Paired;
            p.session = None;
            self.restore(i, p);
            proof {
                lemma_reinsert(s, i as int, self@[i as int]);
                lemma_update_wf(s, i as int, self@[i as int]);
            }
            PairingResolution::Paired
        } else {
            match self.rollback_at(i) {
                Some(data) => PairingResolution::RolledBack(data),
                None => PairingResolution::NoSession,
            }
        }
    }

    /// Rolls back the session of `id` when it started more than the pairing
    /// limit before `now`; the session's data comes back for the rollback hook.
    pub fn check_pairing_timeout(&mut self, id: PeerId, now: u64) -> (r: Option<ExtraData>)
        requires
            old(self).wf(),
        ensures
            final(self).wf(),
            final(self).same_config(old(self)),
            (final(self)@, r) == time_out(old(self)@, id, now, old(self).pairing_limit()),
    {
        proof {
            lemma_index_of(self@, id);
        }
        let i = match self.find(id) {
            Some(i) => i,
            None => return None,
        };
        let overdue = match &self.peers[i].session {
            Some(ss) => now >= ss.started_at && now - ss.started_at > self.pairing_timeout,
            None => false,
        };
        if overdue {
            self.rollback_at(i)
        } else {
            None
        }
    }

    /// Removes `id` when no announcement refreshed it for longer than the
    /// peer time-to-live before `now`. An active session's data comes back for
    /// the rollback hook; the expired hook runs once for the removal.
    pub fn on_peer_expired(&mut self, id: PeerId, now: u64) -> (r: ExpiryOutcome)
        requires
            old(self).wf(),
        ensures
            final(self).wf(),
            final(self).same_config(old(self)),
            (final(self)@, r) == expire(old(self)@, id, now, old(self).ttl()),
    {
        let ghost s = self@;
        proof {
            lemma_index_of(s, id);
        }
        let i = match self.find(id) {
            Some(i) => i,
            None => return ExpiryOutcome::Unknown,
        };
        let last_seen = self.peers[i].last_seen;
        if now >= last_seen && now - last_seen > self.peer_ttl {
            let p = self.take(i);
            proof {
                lemma_remove_wf(s, i as int);
            }
            let data = match p.session {
                Some(ss) => Some(ss.extra_data),
                None => None,
            };
            ExpiryOutcome::Removed(data)
        } else {
            ExpiryOutcome::Kept
        }
    }

    /// Routes an inbound stream from `id`: the peer's record, for the
    /// stream-accept hook, when the peer is known with a live transport;
    /// otherwise `None`, and the stream is discarded.
    pub fn accept_stream(&self, id: PeerId) -> (r: Option<&Peer>)
        requires
            self.wf(),
        ensures
            r is Some <==> index_of(self@, id) >= 0 && has_live_transport(
                self@[index_of(self@, id)],
            ),
            r matches Some(p) ==> *p == self@[index_of(self@, id)],
    {
        match self.find(id) {
            Some(i) => {
                if self.peers[i].is_live() {
                    Some(&self.peers[i])
                } else {
                    None
                }
            },
            None => None,
        }
    }
}

} // verus!
