use p2p_core::hooks::P2PManager;
use p2p_core::manager::NetworkManager;
use p2p_core::peer::{ExtraData, PairingStage, Peer, PeerId, PeerMetadata, PeerState};
use p2p_core::platform::Platform;
use p2p_core::registry::{
    DisconnectOutcome, DiscoveryOutcome, ExpiryOutcome, PairingError, PairingResolution,
};

struct Recorder {
    log: Vec<String>,
    accept: bool,
    requested_with: Vec<ExtraData>,
    rolled_back_with: Vec<ExtraData>,
    streams: Vec<String>,
}

impl Recorder {
    fn new(accept: bool) -> Recorder {
        Recorder {
            log: Vec::new(),
            accept,
            requested_with: Vec::new(),
            rolled_back_with: Vec::new(),
            streams: Vec::new(),
        }
    }

    fn count(&self, entry: &str) -> usize {
        self.log.iter().filter(|e| e.as_str() == entry).count()
    }
}

impl P2PManager for Recorder {
    type Stream = String;

    fn get_metadata(&self) -> PeerMetadata {
        metadata("X", "local")
    }

    fn peer_discovered(&mut self, _nm: &NetworkManager, peer_id: PeerId) {
        self.log.push(format!("discovered {}", peer_id.0));
    }

    fn peer_expired(&mut self, _nm: &NetworkManager, peer_id: PeerId) {
        self.log.push(format!("expired {}", peer_id.0));
    }

    fn peer_connected(&mut self, nm: &NetworkManager, peer_id: PeerId) {
        let state = nm.get_peer(peer_id).map(|p| p.state);
        assert_eq!(state, Some(PeerState::Connected));
        self.log.push(format!("connected {}", peer_id.0));
    }

    fn peer_disconnected(&mut self, nm: &NetworkManager, peer_id: PeerId) {
        let state = nm.get_peer(peer_id).map(|p| p.state);
        assert_eq!(state, Some(PeerState::Disconnected));
        self.log.push(format!("disconnected {}", peer_id.0));
    }

    fn peer_paired(
        &mut self,
        _nm: &NetworkManager,
        peer_id: PeerId,
        extra_data: &ExtraData,
    ) -> Result<(), ()> {
        self.log.push(format!("pair requested {}", peer_id.0));
        self.requested_with.push(extra_data.clone());
        if self.accept {
            Ok(())
        } else {
            Err(())
        }
    }

    fn peer_paired_rollback(&mut self, _nm: &NetworkManager, peer_id: PeerId, extra_data: &ExtraData) {
        self.log.push(format!("rollback {}", peer_id.0));
        self.rolled_back_with.push(extra_data.clone());
    }

    fn accept_stream(&mut self, peer: &Peer, stream: String) {
        self.log.push(format!("stream {}", peer.id.0));
        self.streams.push(stream);
    }
}

const A: PeerId = PeerId(1);
const B: PeerId = PeerId(2);

fn metadata(app: &str, name: &str) -> PeerMetadata {
    PeerMetadata {
        application_name: app.to_string(),
        platform: Platform::Linux,
        display_name: name.to_string(),
    }
}

fn token(value: &str) -> ExtraData {
    vec![("token".to_string(), value.to_string())]
}

fn manager() -> NetworkManager {
    NetworkManager::new("X".to_string(), 30, 10)
}

fn state_of(nm: &NetworkManager, id: PeerId) -> Option<PeerState> {
    nm.get_peer(id).map(|p| p.state)
}

/// Discovers and connects `id`, then starts pairing and has the remote acknowledge.
fn awaiting_accept(nm: &mut NetworkManager, app: &mut Recorder, id: PeerId, extra: ExtraData) {
    nm.handle_discovered(app, id, "10.0.0.1:7373".to_string(), metadata("X", "node"), 0);
    assert!(nm.handle_connected(app, id));
    assert_eq!(nm.begin_pairing(id, extra, 1), Ok(()));
    assert!(nm.on_pairing_acknowledged(id));
}

#[test]
fn announce_connect_pair_scenario() {
    let mut nm = manager();
    let mut app = Recorder::new(true);
    let r = nm.handle_discovered(&mut app, A, "10.0.0.1:7373".to_string(), metadata("X", "node-A"), 5);
    assert!(matches!(r, DiscoveryOutcome::Inserted));
    assert_eq!(app.count("discovered 1"), 1);
    let peer = nm.get_peer(A).unwrap();
    assert_eq!(peer.state, PeerState::Discovered);
    assert_eq!(peer.metadata.platform, Platform::Linux);
    assert_eq!(peer.metadata.display_name, "node-A");

    assert!(nm.handle_connected(&mut app, A));
    assert_eq!(state_of(&nm, A), Some(PeerState::Connected));
    assert_eq!(app.count("connected 1"), 1);

    assert_eq!(nm.begin_pairing(A, token("abc"), 6), Ok(()));
    assert_eq!(state_of(&nm, A), Some(PeerState::Pairing));
    assert_eq!(nm.get_peer(A).unwrap().pairing_stage(), Some(PairingStage::Requested));
    assert!(nm.on_pairing_acknowledged(A));
    assert_eq!(
        nm.get_peer(A).unwrap().pairing_stage(),
        Some(PairingStage::AwaitingApplicationAccept)
    );
    let r = nm.run_pairing_accept(&mut app, A);
    assert!(matches!(r, PairingResolution::Paired));
    assert_eq!(app.requested_with, vec![token("abc")]);
    assert_eq!(state_of(&nm, A), Some(PeerState::Paired));
    assert_eq!(nm.get_peer(A).unwrap().pairing_stage(), None);

    assert_eq!(nm.begin_pairing(A, token("abc"), 7), Err(PairingError::AlreadyPairing));
    assert_eq!(app.count("rollback 1"), 0);
}

#[test]
fn disconnect_before_accept_scenario() {
    let mut nm = manager();
    let mut app = Recorder::new(true);
    awaiting_accept(&mut nm, &mut app, A, token("abc"));
    let r = nm.handle_disconnected(&mut app, A);
    match r {
        DisconnectOutcome::Disconnected(Some(extra)) => assert_eq!(extra, token("abc")),
        _ => panic!("expected a rolled back disconnect"),
    }
    assert_eq!(app.rolled_back_with, vec![token("abc")]);
    let tail: Vec<&str> = app.log.iter().rev().take(2).rev().map(|s| s.as_str()).collect();
    assert_eq!(tail, vec!["rollback 1", "disconnected 1"]);
    assert_eq!(state_of(&nm, A), Some(PeerState::Disconnected));
    assert_eq!(nm.get_peer(A).unwrap().pairing_stage(), None);

    // The accept hook's late answer finds no session.
    assert!(matches!(nm.run_pairing_accept(&mut app, A), PairingResolution::NoSession));
    assert_eq!(app.count("pair requested 1"), 0);

    // Expiry removes the record and runs the expired hook once.
    assert!(matches!(nm.handle_expired(&mut app, A, 20), ExpiryOutcome::Kept));
    assert!(matches!(nm.handle_expired(&mut app, A, 31), ExpiryOutcome::Removed(None)));
    assert!(nm.get_peer(A).is_none());
    assert!(matches!(nm.handle_expired(&mut app, A, 40), ExpiryOutcome::Unknown));
    assert_eq!(app.count("expired 1"), 1);
    assert_eq!(app.count("rollback 1"), 1);
}

#[test]
fn registry_holds_one_record_per_peer() {
    let mut nm = manager();
    let mut app = Recorder::new(true);
    let ids = [1u64, 2, 1, 3, 2, 2, 1, 4, 3];
    for (t, id) in ids.iter().enumerate() {
        nm.handle_discovered(&mut app, PeerId(*id), format!("10.0.0.{}:1", t), metadata("X", "n"), t as u64);
    }
    assert_eq!(nm.peer_count(), 4);
    assert_eq!(app.log.len(), 4);
    assert_eq!(nm.get_peer(PeerId(2)).unwrap().address, "10.0.0.5:1");
    assert_eq!(nm.get_peer(PeerId(1)).unwrap().last_seen, 6);
}

#[test]
fn second_announcement_runs_no_hook() {
    let mut nm = manager();
    let mut app = Recorder::new(true);
    let first = nm.handle_discovered(&mut app, A, "a:1".to_string(), metadata("X", "node-A"), 1);
    let second = nm.handle_discovered(&mut app, A, "a:1".to_string(), metadata("X", "node-A"), 2);
    assert!(matches!(first, DiscoveryOutcome::Inserted));
    assert!(matches!(second, DiscoveryOutcome::Refreshed));
    assert_eq!(app.count("discovered 1"), 1);
    assert_eq!(nm.peer_count(), 1);
}

#[test]
fn reannouncement_replaces_metadata_and_revives() {
    let mut nm = manager();
    let mut app = Recorder::new(true);
    nm.handle_discovered(&mut app, A, "a:1".to_string(), metadata("X", "old"), 1);
    nm.handle_connected(&mut app, A);
    nm.handle_disconnected(&mut app, A);
    assert_eq!(state_of(&nm, A), Some(PeerState::Disconnected));
    let r = nm.handle_discovered(&mut app, A, "a:2".to_string(), metadata("X", "new"), 2);
    assert!(matches!(r, DiscoveryOutcome::Refreshed));
    let peer = nm.get_peer(A).unwrap();
    assert_eq!(peer.state, PeerState::Discovered);
    assert_eq!(peer.metadata.display_name, "new");
    assert_eq!(peer.address, "a:2");
    assert_eq!(app.count("discovered 1"), 1);
}

#[test]
fn other_application_is_ignored() {
    let mut nm = manager();
    let mut app = Recorder::new(true);
    let r = nm.handle_discovered(&mut app, A, "a:1".to_string(), metadata("Y", "node-A"), 1);
    assert!(matches!(r, DiscoveryOutcome::Ignored));
    assert_eq!(nm.peer_count(), 0);
    assert!(app.log.is_empty());
    assert_eq!(nm.application_name(), "X");
}

#[test]
fn second_pairing_request_is_refused() {
    let mut nm = manager();
    let mut app = Recorder::new(true);
    nm.handle_discovered(&mut app, A, "a:1".to_string(), metadata("X", "node-A"), 1);
    nm.handle_connected(&mut app, A);
    assert_eq!(nm.begin_pairing(A, token("one"), 2), Ok(()));
    assert_eq!(nm.begin_pairing(A, token("two"), 2), Err(PairingError::AlreadyPairing));
    let peer = nm.get_peer(A).unwrap();
    assert_eq!(peer.session.as_ref().unwrap().extra_data, token("one"));
}

#[test]
fn pairing_needs_a_connection() {
    let mut nm = manager();
    let mut app = Recorder::new(true);
    assert_eq!(nm.begin_pairing(A, token("x"), 1), Err(PairingError::NotConnected));
    nm.handle_discovered(&mut app, A, "a:1".to_string(), metadata("X", "node-A"), 1);
    assert_eq!(nm.begin_pairing(A, token("x"), 1), Err(PairingError::NotConnected));
    assert!(nm.on_connect_attempt(A));
    assert_eq!(state_of(&nm, A), Some(PeerState::Connecting));
    assert!(!nm.on_connect_attempt(A));
    assert_eq!(nm.begin_pairing(A, token("x"), 1), Err(PairingError::NotConnected));
    assert!(nm.handle_connected(&mut app, A));
    assert!(!nm.handle_connected(&mut app, A));
    assert_eq!(app.count("connected 1"), 1);
    assert_eq!(nm.begin_pairing(A, token("x"), 1), Ok(()));
}

#[test]
fn rollback_twice_hands_data_out_once() {
    let mut nm = manager();
    let mut app = Recorder::new(true);
    awaiting_accept(&mut nm, &mut app, A, token("abc"));
    assert_eq!(nm.rollback_pairing(A), Some(token("abc")));
    assert_eq!(state_of(&nm, A), Some(PeerState::Connected));
    assert_eq!(nm.rollback_pairing(A), None);
    assert_eq!(state_of(&nm, A), Some(PeerState::Connected));
    assert_eq!(nm.rollback_pairing(B), None);
}

#[test]
fn refusal_racing_disconnect_rolls_back_once() {
    let mut nm = manager();
    let mut app = Recorder::new(false);
    awaiting_accept(&mut nm, &mut app, A, token("abc"));
    match nm.run_pairing_accept(&mut app, A) {
        PairingResolution::RolledBack(extra) => assert_eq!(extra, token("abc")),
        _ => panic!("expected a rollback"),
    }
    assert_eq!(state_of(&nm, A), Some(PeerState::Connected));
    assert!(matches!(nm.handle_disconnected(&mut app, A), DisconnectOutcome::Disconnected(None)));
    assert_eq!(app.count("rollback 1"), 1);
    assert_eq!(app.count("disconnected 1"), 1);
    assert!(matches!(nm.handle_disconnected(&mut app, A), DisconnectOutcome::AlreadyDisconnected));
    assert_eq!(app.count("disconnected 1"), 1);
}

#[test]
fn disconnect_while_awaiting_rolls_back_first() {
    let mut nm = manager();
    let mut app = Recorder::new(true);
    awaiting_accept(&mut nm, &mut app, B, token("k"));
    nm.handle_disconnected(&mut app, B);
    let pos_rollback = app.log.iter().position(|e| e == "rollback 2").unwrap();
    let pos_disconnect = app.log.iter().position(|e| e == "disconnected 2").unwrap();
    assert!(pos_rollback < pos_disconnect);
    assert!(matches!(nm.on_pairing_answered(B, true), PairingResolution::NoSession));
    assert_eq!(state_of(&nm, B), Some(PeerState::Disconnected));
}

#[test]
fn unknown_peer_disconnect_is_ignored() {
    let mut nm = manager();
    let mut app = Recorder::new(true);
    assert!(matches!(nm.handle_disconnected(&mut app, A), DisconnectOutcome::Unknown));
    assert!(app.log.is_empty());
}

#[test]
fn answer_before_acknowledgement_is_stale() {
    let mut nm = manager();
    let mut app = Recorder::new(true);
    nm.handle_discovered(&mut app, A, "a:1".to_string(), metadata("X", "node-A"), 1);
    nm.handle_connected(&mut app, A);
    nm.begin_pairing(A, token("t"), 1).unwrap();
    assert!(matches!(nm.on_pairing_answered(A, true), PairingResolution::NoSession));
    assert!(matches!(nm.run_pairing_accept(&mut app, A), PairingResolution::NoSession));
    assert_eq!(state_of(&nm, A), Some(PeerState::Pairing));
    assert!(nm.on_pairing_acknowledged(A));
    assert!(!nm.on_pairing_acknowledged(A));
    assert!(matches!(nm.on_pairing_answered(A, true), PairingResolution::Paired));
}

#[test]
fn pairing_times_out() {
    let mut nm = manager();
    let mut app = Recorder::new(true);
    nm.handle_discovered(&mut app, A, "a:1".to_string(), metadata("X", "node-A"), 0);
    nm.handle_connected(&mut app, A);
    nm.begin_pairing(A, token("t"), 100).unwrap();
    assert!(nm.on_pairing_acknowledged(A));
    assert_eq!(nm.handle_pairing_timeout(&mut app, A, 110), None);
    assert_eq!(nm.handle_pairing_timeout(&mut app, A, 50), None);
    assert_eq!(state_of(&nm, A), Some(PeerState::Pairing));
    assert_eq!(nm.handle_pairing_timeout(&mut app, A, 111), Some(token("t")));
    assert_eq!(state_of(&nm, A), Some(PeerState::Connected));
    assert_eq!(app.rolled_back_with, vec![token("t")]);
    assert_eq!(nm.handle_pairing_timeout(&mut app, A, 200), None);
}

#[test]
fn expiry_rolls_back_active_session() {
    let mut nm = manager();
    let mut app = Recorder::new(true);
    awaiting_accept(&mut nm, &mut app, A, token("z"));
    match nm.handle_expired(&mut app, A, 100) {
        ExpiryOutcome::Removed(Some(extra)) => assert_eq!(extra, token("z")),
        _ => panic!("expected removal with a rollback"),
    }
    assert_eq!(app.log[app.log.len() - 2..].to_vec(), vec!["rollback 1", "expired 1"]);
    assert_eq!(nm.peer_count(), 0);
}

#[test]
fn expiry_boundary_is_exclusive() {
    let mut nm = manager();
    let mut app = Recorder::new(true);
    nm.handle_discovered(&mut app, A, "a:1".to_string(), metadata("X", "node-A"), 10);
    assert!(matches!(nm.on_peer_expired(A, 40), ExpiryOutcome::Kept));
    assert!(matches!(nm.on_peer_expired(A, 5), ExpiryOutcome::Kept));
    assert!(matches!(nm.on_peer_expired(A, 41), ExpiryOutcome::Removed(None)));
}

#[test]
fn streams_go_to_live_peers_only() {
    let mut nm = manager();
    let mut app = Recorder::new(true);
    assert!(!nm.handle_stream(&mut app, A, "s0".to_string()));
    nm.handle_discovered(&mut app, A, "a:1".to_string(), metadata("X", "node-A"), 1);
    assert!(!nm.handle_stream(&mut app, A, "s1".to_string()));
    nm.handle_connected(&mut app, A);
    assert!(nm.handle_stream(&mut app, A, "s2".to_string()));
    assert!(nm.accept_stream(A).is_some());
    nm.handle_disconnected(&mut app, A);
    assert!(!nm.handle_stream(&mut app, A, "s3".to_string()));
    assert_eq!(app.streams, vec!["s2".to_string()]);
    assert_eq!(app.count("stream 1"), 1);
}

#[test]
fn metadata_from_wire_rejects_unknown_platform() {
    let m = PeerMetadata::from_wire("X".to_string(), 3, "node-A".to_string()).unwrap();
    assert_eq!(m.platform, Platform::Linux);
    assert_eq!(m.application_name, "X");
    assert_eq!(m.display_name, "node-A");
    assert!(PeerMetadata::from_wire("X".to_string(), 6, "n".to_string()).is_none());
    assert!(PeerMetadata::from_wire("X".to_string(), -1, "n".to_string()).is_none());
    let app = Recorder::new(true);
    assert_eq!(app.get_metadata().display_name, "local");
}

#[test]
fn live_transport_states() {
    let mut nm = manager();
    let mut app = Recorder::new(true);
    nm.handle_discovered(&mut app, A, "a:1".to_string(), metadata("X", "node-A"), 1);
    assert!(!nm.get_peer(A).unwrap().is_live());
    nm.handle_connected(&mut app, A);
    assert!(nm.get_peer(A).unwrap().is_live());
}
