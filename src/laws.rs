use vstd::prelude::*;

use crate::peer::{PairingStage, Peer, PeerId, PeerMetadata, PeerState};
use crate::registry::{
    begin, disconnect, discover, discover_all, finish, in_stage, index_of, lemma_discover_wf,
    lemma_index_of, lemma_rollback_wf, lemma_update_wf, registry_wf, rollback, session_data,
    DisconnectOutcome, PairingError, PairingResolution,
};

verus! {

/// Whatever announcements arrive, in whatever order, the registry never holds
/// two records for one peer id.
pub proof fn lemma_discovery_keeps_ids_unique(
    s: Seq<Peer>,
    app: Seq<char>,
    events: Seq<(PeerId, String, PeerMetadata, u64)>,
)
    requires
        registry_wf(s),
    ensures
        registry_wf(discover_all(s, app, events)),
        forall|i: int, j: int|
            0 <= i < discover_all(s, app, events).len() && 0 <= j < discover_all(
                s,
                app,
                events,
            ).len() && i != j ==> discover_all(s, app, events)[i].id != discover_all(
                s,
                app,
                events,
            )[j].id,
    decreases events.len(),
{
    if events.len() > 0 {
        let e = events.last();
        lemma_discovery_keeps_ids_unique(s, app, events.drop_last());
        lemma_discover_wf(discover_all(s, app, events.drop_last()), app, e.0, e.1, e.2, e.3);
    }
}

/// Announcing a peer twice runs the discovered hook at most once: the second
/// announcement only refreshes the record, and the first inserts it exactly
/// when the peer was unknown.
pub proof fn lemma_discovery_idempotent(
    s: Seq<Peer>,
    app: Seq<char>,
    id: PeerId,
    address: String,
    md: PeerMetadata,
    now1: u64,
    now2: u64,
)
    requires
        registry_wf(s),
        md.application_name@ == app,
    ensures
        (discover(s, app, id, address, md, now1).1 is Inserted) <==> index_of(s, id) < 0,
        discover(discover(s, app, id, address, md, now1).0, app, id, address, md, now2).1 is Refreshed,
{
    lemma_index_of(s, id);
    let s1 = discover(s, app, id, address, md, now1).0;
    lemma_discover_wf(s, app, id, address, md, now1);
    lemma_index_of(s1, id);
    if index_of(s, id) < 0 {
        assert(s1[s.len() as int].id == id);
    } else {
        assert(s1[index_of(s, id)].id == id);
    }
}

/// Of two pairing requests for the same peer, at most one starts a session:
/// the first succeeds exactly when the peer is connected, and then the second
/// fails with `AlreadyPairing`.
pub proof fn lemma_pairing_exclusive(
    s: Seq<Peer>,
    id: PeerId,
    extra1: Vec<(String, String)>,
    now1: u64,
    extra2: Vec<(String, String)>,
    now2: u64,
)
    requires
        registry_wf(s),
    ensures
        begin(s, id, extra1, now1).1 is Ok ==> begin(begin(s, id, extra1, now1).0, id, extra2, now2).1
            == Err::<(), PairingError>(PairingError::AlreadyPairing),
        !(begin(s, id, extra1, now1).1 is Ok && begin(begin(s, id, extra1, now1).0, id, extra2, now2).1 is Ok),
        (begin(s, id, extra1, now1).1 is Ok) <==> (index_of(s, id) >= 0 && s[index_of(s, id)].state
            == PeerState::Connected),
{
    lemma_index_of(s, id);
    let i = index_of(s, id);
    if begin(s, id, extra1, now1).1 is Ok {
        let s1 = begin(s, id, extra1, now1).0;
        lemma_update_wf(s, i, s1[i]);
        lemma_index_of(s1, id);
    }
}

/// Rolling back the same session twice hands out its data once: the second
/// rollback changes nothing and gives nothing.
pub proof fn lemma_rollback_idempotent(s: Seq<Peer>, id: PeerId)
    requires
        registry_wf(s),
    ensures
        rollback(rollback(s, id).0, id).1 is None,
        rollback(rollback(s, id).0, id).0 == rollback(s, id).0,
{
    lemma_index_of(s, id);
    lemma_rollback_wf(s, id);
    lemma_index_of(rollback(s, id).0, id);
}

/// A refused accept hook racing a disconnect rolls the session back once,
/// whichever of the two is handled first.
pub proof fn lemma_rollback_once_under_race(s: Seq<Peer>, id: PeerId)
    requires
        registry_wf(s),
        in_stage(s, id, PairingStage::AwaitingApplicationAccept),
    ensures
        finish(s, id, false).1 is RolledBack,
        disconnect(finish(s, id, false).0, id).1 == DisconnectOutcome::Disconnected(None),
        disconnect(s, id).1 is Disconnected,
        disconnect(s, id).1->Disconnected_0 is Some,
        finish(disconnect(s, id).0, id, false).1 == PairingResolution::NoSession,
{
    lemma_index_of(s, id);
    let i = index_of(s, id);
    lemma_rollback_wf(s, id);
    let s1 = finish(s, id, false).0;
    lemma_index_of(s1, id);
    let d = disconnect(s, id).0;
    let r = rollback(s, id).0;
    lemma_index_of(r, id);
    lemma_update_wf(r, i, d[i]);
    lemma_index_of(d, id);
}

/// A disconnect while the application is deciding on a pairing rolls the
/// session back, with the data it started with, before the disconnected hook is
/// owed; the peer ends disconnected with no session.
pub proof fn lemma_disconnect_cancels_pairing(s: Seq<Peer>, id: PeerId)
    requires
        registry_wf(s),
        in_stage(s, id, PairingStage::AwaitingApplicationAccept),
    ensures
        disconnect(s, id).1 == DisconnectOutcome::Disconnected(
            session_data(s[index_of(s, id)]),
        ),
        session_data(s[index_of(s, id)]) is Some,
        disconnect(s, id).0[index_of(s, id)].state == PeerState::Disconnected,
        disconnect(s, id).0[index_of(s, id)].session is None,
        disconnect(s, id).0 == rollback(s, id).0.update(
            index_of(s, id),
            Peer { state: PeerState::Disconnected, ..rollback(s, id).0[index_of(s, id)] },
        ),
{
    lemma_index_of(s, id);
}

} // verus!
