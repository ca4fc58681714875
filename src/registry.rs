use vstd::prelude::*;

use crate::peer::{
    session_consistent, ExtraData, PairingSession, PairingStage, Peer, PeerId, PeerMetadata,
    PeerState,
};

verus! {

/// What an announcement did to the registry.
#[derive(Debug)]
pub enum DiscoveryOutcome {
    /// A new peer was recorded: the discovered hook runs.
    Inserted,
    /// A known peer's record was refreshed: no hook runs.
    Refreshed,
    /// The announcement was for another application and was dropped.
    Ignored,
}

/// Why `begin_pairing` refused to start.
#[derive(Debug, Clone, Copy, PartialEq, Eq, Structural)]
pub enum PairingError {
    NotConnected,
    AlreadyPairing,
}

/// How the accept step of a pairing session ended.
#[derive(Debug)]
pub enum PairingResolution {
    /// The peer is now paired.
    Paired,
    /// The session was rolled back: the rollback hook runs with this data.
    RolledBack(ExtraData),
    /// No session was waiting for the application's answer.
    NoSession,
}

/// What a transport disconnect did to the registry.
#[derive(Debug)]
pub enum DisconnectOutcome {
    /// The peer is not known: no hook runs.
    Unknown,
    /// The peer was already disconnected: no hook runs.
    AlreadyDisconnected,
    /// The peer is now disconnected. If a pairing session was active, it was
    /// rolled back first: the rollback hook runs with its data, and then the
    /// disconnected hook.
    Disconnected(Option<ExtraData>),
}

/// What an expiry check did to the registry.
#[derive(Debug)]
pub enum ExpiryOutcome {
    /// The peer is not known.
    Unknown,
    /// The peer was seen recently enough and stays.
    Kept,
    /// The peer's record was removed: a session that was active is rolled
    /// back with the data given, then the expired hook runs.
    Removed(Option<ExtraData>),
}

/// No two records of the registry share a `PeerId`.
pub open spec fn ids_unique(s: Seq<Peer>) -> bool {
    forall|i: int, j: int|
        0 <= i < s.len() && 0 <= j < s.len() && i != j ==> s[i].id != s[j].id
}

/// Well-formed registry: unique ids, and a session exactly on pairing peers.
pub open spec fn registry_wf(s: Seq<Peer>) -> bool {
    &&& ids_unique(s)
    &&& forall|i: int| 0 <= i < s.len() ==> session_consistent(#[trigger] s[i])
}

/// Position of the record of `id`, or -1 when there is none.
pub open spec fn index_of(s: Seq<Peer>, id: PeerId) -> int {
    if exists|i: int| 0 <= i < s.len() && s[i].id == id {
        choose|i: int| 0 <= i < s.len() && s[i].id == id
    } else {
        -1
    }
}

/// The extra data of a peer's active session, if any.
pub open spec fn session_data(p: Peer) -> Option<ExtraData> {
    match p.session {
        Some(ss) => Some(ss.extra_data),
        None => None,
    }
}

/// Handling of an announcement of `id` with `md` at time `now`, for the
/// local application `app`.
pub open spec fn discover(
    s: Seq<Peer>,
    app: Seq<char>,
    id: PeerId,
    address: String,
    md: PeerMetadata,
    now: u64,
) -> (Seq<Peer>, DiscoveryOutcome) {
    let i = index_of(s, id);
    if md.application_name@ != app {
        (s, DiscoveryOutcome::Ignored)
    } else if i >= 0 {
        let p = s[i];
        let state = if p.state == PeerState::Disconnected {
            PeerState::Discovered
        } else {
            p.state
        };
        (
            s.update(i, Peer { metadata: md, address, last_seen: now, state, ..p }),
            DiscoveryOutcome::Refreshed,
        )
    } else {
        (
            s.push(
                Peer {
                    id,
                    metadata: md,
                    address,
                    state: PeerState::Discovered,
                    last_seen: now,
                    session: None,
                },
            ),
            DiscoveryOutcome::Inserted,
        )
    }
}

/// Applies a sequence of announcements `(id, address, metadata, time)` in order.
pub open spec fn discover_all(
    s: Seq<Peer>,
    app: Seq<char>,
    events: Seq<(PeerId, String, PeerMetadata, u64)>,
) -> Seq<Peer>
    decreases events.len(),
{
    if events.len() == 0 {
        s
    } else {
        let e = events.last();
        discover(discover_all(s, app, events.drop_last()), app, e.0, e.1, e.2, e.3).0
    }
}

/// A peer sets up a transport connection: a discovered peer moves to `Connecting`.
pub open spec fn connect_attempt(s: Seq<Peer>, id: PeerId) -> (Seq<Peer>, bool) {
    let i = index_of(s, id);
    if i >= 0 && s[i].state == PeerState::Discovered {
        (s.update(i, Peer { state: PeerState::Connecting, ..s[i] }), true)
    } else {
        (s, false)
    }
}

/// The transport reports a connection: a discovered or connecting peer moves
/// to `Connected`, and the connected hook runs.
pub open spec fn connect(s: Seq<Peer>, id: PeerId) -> (Seq<Peer>, bool) {
    let i = index_of(s, id);
    if i >= 0 && (s[i].state == PeerState::Discovered || s[i].state == PeerState::Connecting) {
        (s.update(i, Peer { state: PeerState::Connected, ..s[i] }), true)
    } else {
        (s, false)
    }
}

/// Rolls back the active pairing session of `id`, if any: the session goes
/// and the peer returns to `Connected`. Gives the session's data.
pub open spec fn rollback(s: Seq<Peer>, id: PeerId) -> (Seq<Peer>, Option<ExtraData>) {
    let i = index_of(s, id);
    if i >= 0 && s[i].session is Some {
        (
            s.update(i, Peer { state: PeerState::Connected, session: None, ..s[i] }),
            session_data(s[i]),
        )
    } else {
        (s, None)
    }
}

/// The transport reports a disconnect: an active session is rolled back,
/// then the peer moves to `Disconnected`.
pub open spec fn disconnect(s: Seq<Peer>, id: PeerId) -> (Seq<Peer>, DisconnectOutcome) {
    let i = index_of(s, id);
    if i < 0 {
        (s, DisconnectOutcome::Unknown)
    } else if s[i].state == PeerState::Disconnected {
        (s, DisconnectOutcome::AlreadyDisconnected)
    } else {
        let (s1, data) = rollback(s, id);
        (
            s1.update(i, Peer { state: PeerState::Disconnected, ..s1[i] }),
            DisconnectOutcome::Disconnected(data),
        )
    }
}

/// The error `begin_pairing` gives for a peer, if it gives one.
pub open spec fn pairing_refusal(s: Seq<Peer>, id: PeerId) -> Option<PairingError> {
    let i = index_of(s, id);
    if i < 0 {
        Some(PairingError::NotConnected)
    } else if s[i].state == PeerState::Pairing || s[i].state == PeerState::Paired {
        Some(PairingError::AlreadyPairing)
    } else if s[i].state != PeerState::Connected {
        Some(PairingError::NotConnected)
    } else {
        None
    }
}

/// Starts pairing with a connected peer: a session in stage `Requested`.
pub open spec fn begin(s: Seq<Peer>, id: PeerId, extra: ExtraData, now: u64) -> (
    Seq<Peer>,
    Result<(), PairingError>,
) {
    match pairing_refusal(s, id) {
        Some(e) => (s, Err(e)),
        None => {
            let i = index_of(s, id);
            let ss = PairingSession {
                extra_data: extra,
                started_at: now,
                stage: PairingStage::Requested,
            };
            (s.update(i, Peer { state: PeerState::Pairing, session: Some(ss), ..s[i] }), Ok(()))
        },
    }
}

/// The session of `id` is in stage `stage`.
pub open spec fn in_stage(s: Seq<Peer>, id: PeerId, stage: PairingStage) -> bool {
    let i = index_of(s, id);
    i >= 0 && (s[i].session matches Some(ss) && ss.stage == stage)
}

/// The remote acknowledged the request: the session awaits the application.
pub open spec fn acknowledge(s: Seq<Peer>, id: PeerId) -> (Seq<Peer>, bool) {
    let i = index_of(s, id);
    if in_stage(s, id, PairingStage::Requested) {
        let ss = s[i].session.unwrap();
        let ss2 = PairingSession { stage: PairingStage::AwaitingApplicationAccept, ..ss };
        (s.update(i, Peer { session: Some(ss2), ..s[i] }), true)
    } else {
        (s, false)
    }
}

/// The application's accept hook answered: the peer is paired, or the
/// session is rolled back.
pub open spec fn finish(s: Seq<Peer>, id: PeerId, accepted: bool) -> (
    Seq<Peer>,
    PairingResolution,
) {
    let i = index_of(s, id);
    if !in_stage(s, id, PairingStage::AwaitingApplicationAccept) {
        (s, PairingResolution::NoSession)
    } else if accepted {
        (
            s.update(i, Peer { state: PeerState::Paired, session: None, ..s[i] }),
            PairingResolution::Paired,
        )
    } else {
        let (s1, data) = rollback(s, id);
        (s1, PairingResolution::RolledBack(data.unwrap()))
    }
}

/// The session of `id` started more than `limit` before `now`.
pub open spec fn session_overdue(s: Seq<Peer>, id: PeerId, now: u64, limit: u64) -> bool {
    let i = index_of(s, id);
    i >= 0 && (s[i].session matches Some(ss) && now >= ss.started_at && now - ss.started_at
        > limit)
}

/// A session that has waited longer than `limit` is rolled back.
pub open spec fn time_out(s: Seq<Peer>, id: PeerId, now: u64, limit: u64) -> (
    Seq<Peer>,
    Option<ExtraData>,
) {
    if session_overdue(s, id, now, limit) {
        rollback(s, id)
    } else {
        (s, None)
    }
}

/// The peer was last seen more than `ttl` before `now`.
pub open spec fn stale(p: Peer, now: u64, ttl: u64) -> bool {
    now >= p.last_seen && now - p.last_seen > ttl
}

/// A peer not announced for longer than `ttl` is removed, its session rolled back.
pub open spec fn expire(s: Seq<Peer>, id: PeerId, now: u64, ttl: u64) -> (
    Seq<Peer>,
    ExpiryOutcome,
) {
    let i = index_of(s, id);
    if i < 0 {
        (s, ExpiryOutcome::Unknown)
    } else if stale(s[i], now, ttl) {
        (s.remove(i), ExpiryOutcome::Removed(session_data(s[i])))
    } else {
        (s, ExpiryOutcome::Kept)
    }
}

/// Facts about `index_of`; on a registry with unique ids it is the one
/// position that holds `id`.
pub proof fn lemma_index_of(s: Seq<Peer>, id: PeerId)
    ensures
        -1 <= index_of(s, id) < s.len(),
        index_of(s, id) >= 0 ==> s[index_of(s, id)].id == id,
        index_of(s, id) < 0 ==> forall|j: int| 0 <= j < s.len() ==> s[j].id != id,
        ids_unique(s) ==> forall|j: int| 0 <= j < s.len() && s[j].id == id ==> index_of(s, id) == j,
{
}

/// Replacing a record by one with the same id and a consistent session keeps
/// the registry well formed, and every id at the same place.
pub proof fn lemma_update_wf(s: Seq<Peer>, i: int, p: Peer)
    requires
        registry_wf(s),
        0 <= i < s.len(),
        p.id == s[i].id,
        session_consistent(p),
    ensures
        registry_wf(s.update(i, p)),
        forall|id: PeerId| index_of(s.update(i, p), id) == index_of(s, id),
{
    let t = s.update(i, p);
    assert forall|id: PeerId| index_of(t, id) == index_of(s, id) by {
        lemma_index_of(s, id);
        lemma_index_of(t, id);
        if index_of(s, id) >= 0 {
            assert(t[index_of(s, id)].id == id);
        }
        if index_of(t, id) >= 0 {
            assert(s[index_of(t, id)].id == id);
        }
    }
}


/// Taking a record out and putting another at the same place replaces it.
pub proof fn lemma_reinsert(s: Seq<Peer>, i: int, p: Peer)
    requires
        0 <= i < s.len(),
    ensures
        s.remove(i).insert(i, p) == s.update(i, p),
{
    assert(s.remove(i).insert(i, p) =~= s.update(i, p));
}

/// Adding a record for an id that the registry does not hold keeps it well formed.
pub proof fn lemma_push_wf(s: Seq<Peer>, p: Peer)
    requires
        registry_wf(s),
        index_of(s, p.id) < 0,
        session_consistent(p),
    ensures
        registry_wf(s.push(p)),
{
    lemma_index_of(s, p.id);
    let t = s.push(p);
    assert forall|i: int| 0 <= i < t.len() implies session_consistent(#[trigger] t[i]) by {
        if i < s.len() {
            assert(t[i] == s[i]);
        }
    }
}

/// Removing a record keeps the registry well formed.
pub proof fn lemma_remove_wf(s: Seq<Peer>, i: int)
    requires
        registry_wf(s),
        0 <= i < s.len(),
    ensures
        registry_wf(s.remove(i)),
{
    let t = s.remove(i);
    assert forall|j: int| 0 <= j < t.len() implies session_consistent(#[trigger] t[j]) by {
        if j < i {
            assert(t[j] == s[j]);
        } else {
            assert(t[j] == s[j + 1]);
        }
    }
    assert forall|a: int, b: int|
        0 <= a < t.len() && 0 <= b < t.len() && a != b implies t[a].id != t[b].id by {
        let a2 = if a < i {
            a
        } else {
            a + 1
        };
        let b2 = if b < i {
            b
        } else {
            b + 1
        };
        assert(t[a] == s[a2]);
        assert(t[b] == s[b2]);
    }
}

/// Every announcement keeps the registry well formed.
pub proof fn lemma_discover_wf(
    s: Seq<Peer>,
    app: Seq<char>,
    id: PeerId,
    address: String,
    md: PeerMetadata,
    now: u64,
)
    requires
        registry_wf(s),
    ensures
        registry_wf(discover(s, app, id, address, md, now).0),
{
    lemma_index_of(s, id);
    let i = index_of(s, id);
    if md.application_name@ == app {
        if i >= 0 {
            let p = s[i];
            let state = if p.state == PeerState::Disconnected {
                PeerState::Discovered
            } else {
                p.state
            };
            lemma_update_wf(s, i, Peer { metadata: md, address, last_seen: now, state, ..p });
        } else {
            lemma_push_wf(
                s,
                Peer {
                    id,
                    metadata: md,
                    address,
                    state: PeerState::Discovered,
                    last_seen: now,
                    session: None,
                },
            );
        }
    }
}

/// Rolling back keeps the registry well formed and every id in place.
pub proof fn lemma_rollback_wf(s: Seq<Peer>, id: PeerId)
    requires
        registry_wf(s),
    ensures
        registry_wf(rollback(s, id).0),
        forall|k: PeerId| index_of(#[trigger] rollback(s, id).0, k) == index_of(s, k),
        rollback(s, id).0.len() == s.len(),
{
    lemma_index_of(s, id);
    let i = index_of(s, id);
    if i >= 0 && s[i].session is Some {
        lemma_update_wf(s, i, Peer { state: PeerState::Connected, session: None, ..s[i] });
    }
}

} // verus!
