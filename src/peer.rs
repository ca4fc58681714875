use vstd::prelude::*;

use crate::platform::{platform_code, Platform};

verus! {

/// Stable identity of a node, independent of its network address.
#[derive(Debug, Clone, Copy, PartialEq, Eq, Structural)]
pub struct PeerId(pub u64);

/// Key/value pairs that travel with a pairing request.
pub type ExtraData = Vec<(String, String)>;

/// Descriptor of a node, exchanged during discovery and pairing.
#[derive(Debug, Clone)]
pub struct PeerMetadata {
    pub application_name: String,
    pub platform: Platform,
    pub display_name: String,
}

impl PeerMetadata {
    /// Builds the metadata of an announcement from its decoded fields;
    /// an unknown platform code makes the announcement malformed.
    pub fn from_wire(application_name: String, platform: i32, display_name: String) -> (r: Option<
        PeerMetadata,
    >)
        ensures
            r is None <==> !(0 <= platform <= 5),
            r matches Some(m) ==> m.application_name == application_name && platform_code(
                m.platform,
            ) == platform && m.display_name == display_name,
    {
        match Platform::from_int(platform) {
            Some(p) => Some(PeerMetadata { application_name, platform: p, display_name }),
            None => None,
        }
    }
}

/// Where a peer stands in its lifecycle.
#[derive(Debug, Clone, Copy, PartialEq, Eq, Structural)]
pub enum PeerState {
    Discovered,
    Connecting,
    Connected,
    Pairing,
    Paired,
    Disconnected,
}

/// Where an active pairing session stands.
#[derive(Debug, Clone, Copy, PartialEq, Eq, Structural)]
pub enum PairingStage {
    /// The request was sent; the remote has not acknowledged it yet.
    Requested,
    /// The remote acknowledged; the application's accept hook is running.
    AwaitingApplicationAccept,
}

/// The state of one pairing attempt with a peer.
#[derive(Debug)]
pub struct PairingSession {
    pub extra_data: ExtraData,
    pub started_at: u64,
    pub stage: PairingStage,
}

/// One remote node known to the local node.
#[derive(Debug)]
pub struct Peer {
    pub id: PeerId,
    pub metadata: PeerMetadata,
    pub address: String,
    pub state: PeerState,
    /// Time of the last announcement that named this peer.
    pub last_seen: u64,
    /// The active pairing session, if any; a peer has at most one.
    pub session: Option<PairingSession>,
}

/// A pairing session exists exactly while the peer is in the `Pairing` state.
pub open spec fn session_consistent(p: Peer) -> bool {
    p.session is Some <==> p.state == PeerState::Pairing
}

/// A transport connection to the peer is up.
pub open spec fn has_live_transport(p: Peer) -> bool {
    p.state == PeerState::Connected || p.state == PeerState::Pairing || p.state
        == PeerState::Paired
}

impl Peer {
    /// Whether a transport connection to this peer is up.
    pub fn is_live(&self) -> (r: bool)
        ensures
            r == has_live_transport(*self),
    {
        match self.state {
            PeerState::Connected | PeerState::Pairing | PeerState::Paired => true,
            _ => false,
        }
    }

    /// The stage of the active pairing session, if any.
    pub fn pairing_stage(&self) -> (r: Option<PairingStage>)
        ensures
            r == (match self.session {
                Some(s) => Some(s.stage),
                None => None,
            }),
    {
        match &self.session {
            Some(s) => Some(s.stage),
            None => None,
        }
    }
}

} // verus!
