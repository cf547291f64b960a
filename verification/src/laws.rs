//! Laws of the codec.
//!
//! The central one is the round trip: the request body built for a
//! message decodes back to an equivalent message.  It is stated over the
//! codec relations, so it covers every value the encoder can produce.
//! Two wire artefacts bound it: stop-sign metadata travels as a plain
//! list, so a message whose stop sign carries absent metadata comes back
//! with empty metadata instead; the round trip is therefore stated for
//! canonical messages, whose stop signs all carry metadata.

use vstd::prelude::*;

use crate::codec::{
    ballot_wires, entries_wire, entry_wires, stopsign_unwires, stopsign_wires, sync_item_unwires,
    sync_item_wires,
};
use crate::message::{
    ballot_lt, cmds_eq, message_eq, stopsign_eq, sync_eq, Ballot, BleMessage, Message, PaxosMsg,
    StopSign, SyncItem,
};
use crate::rpc::{
    ble_unwires, ble_wires, opt_stopsign_unwires, opt_stopsign_wires, opt_sync_item_unwires,
    opt_sync_item_wires, paxos_unwires, paxos_wires,
};
use crate::wire::{WireBallot, WireEntry, WirePaxosMessage, WireStopSign, WireSyncItem};

verus! {

/// Lexicographic order on wire ballots, matching the model order.
pub open spec fn wire_ballot_lt(a: WireBallot, b: WireBallot) -> bool {
    ||| a.n < b.n
    ||| (a.n == b.n && a.priority < b.priority)
    ||| (a.n == b.n && a.priority == b.priority && a.pid < b.pid)
}

/// Encoding ballots is order preserving: the wire forms compare exactly
/// as the ballots do lexicographically.
pub proof fn lemma_ballot_encode_preserves_order(
    w1: WireBallot,
    b1: Ballot,
    w2: WireBallot,
    b2: Ballot,
)
    requires
        ballot_wires(w1, b1),
        ballot_wires(w2, b2),
    ensures
        wire_ballot_lt(w1, w2) <==> ballot_lt(b1, b2),
{
}

/// A command list decodes from its wire form back to an equivalent
/// list.
pub proof fn lemma_entries_round_trip(ws: Seq<WireEntry>, cs1: Seq<crate::message::StoreCommand>, cs2: Seq<crate::message::StoreCommand>)
    requires
        entries_wire(ws, cs1),
        entries_wire(ws, cs2),
    ensures
        cmds_eq(cs1, cs2),
{
    assert forall|i: int| 0 <= i < cs1.len() implies crate::message::cmd_eq(
        #[trigger] cs1[i],
        cs2[i],
    ) by {
        assert(entry_wires(ws[i], cs1[i]));
        assert(entry_wires(ws[i], cs2[i]));
    }
}

/// A sync item decodes from its wire form back to an equivalent item.
pub proof fn lemma_sync_item_round_trip(w: WireSyncItem, s1: SyncItem, s2: SyncItem)
    requires
        sync_item_wires(w, s1),
        sync_item_unwires(s2, w),
    ensures
        sync_eq(s1, s2),
{
    match s1 {
        SyncItem::Entries(es1) => {
            let es2 = s2->Entries_0;
            let we = w.syncitem->Some_0->Entries_0;
            lemma_entries_round_trip(we.entries@, es1@, es2@);
        },
        SyncItem::Snapshot => {},
        SyncItem::NoItem => {},
    }
}

/// A stop sign that carries metadata decodes from its wire form back to
/// an equivalent stop sign: each metadata byte survives the widening to
/// `u32` and the narrowing back.
pub proof fn lemma_stopsign_round_trip(w: WireStopSign, ss1: StopSign, ss2: StopSign)
    requires
        stopsign_wires(w, ss1),
        stopsign_unwires(ss2, w),
        ss1.metadata is Some,
    ensures
        stopsign_eq(ss1, ss2),
{
    let md1 = ss1.metadata->0;
    let md2 = ss2.metadata->0;
    assert forall|i: int| 0 <= i < md1@.len() implies md1@[i] == md2@[i] by {
        assert(w.metadata@[i] == md1@[i] as u32);
        assert(md2@[i] == w.metadata@[i] as u8);
    }
    assert(md1@ =~= md2@);
}

/// `stopsign_eq` is symmetric; stated for the optional forms used by
/// Promise and AcceptSync.
proof fn lemma_opt_stopsign_round_trip(
    w: Option<WireStopSign>,
    ss1: Option<StopSign>,
    ss2: Option<StopSign>,
)
    requires
        opt_stopsign_wires(w, ss1),
        opt_stopsign_unwires(ss2, w),
        ss1 matches Some(s) ==> s.metadata is Some,
    ensures
        crate::message::opt_stopsign_eq(ss1, ss2),
{
    if let Some(s1) = ss1 {
        lemma_stopsign_round_trip(w->0, s1, ss2->0);
    }
}

proof fn lemma_opt_sync_item_round_trip(
    w: Option<WireSyncItem>,
    s1: Option<SyncItem>,
    s2: Option<SyncItem>,
)
    requires
        opt_sync_item_wires(w, s1),
        opt_sync_item_unwires(s2, w),
    ensures
        match s1 {
            Some(a) => s2 matches Some(b) && sync_eq(a, b),
            None => s2 is None,
        },
{
    if let Some(a) = s1 {
        lemma_sync_item_round_trip(w->0, a, s2->0);
    }
}

/// A message is canonical when every stop sign it carries has metadata
/// present.  Absent metadata travels as the empty list and so does not
/// survive a round trip.
pub open spec fn message_canonical(m: Message) -> bool {
    match m.msg {
        PaxosMsg::Promise(p) => p.stopsign matches Some(ss) ==> ss.metadata is Some,
        PaxosMsg::AcceptSync(p) => p.stopsign matches Some(ss) ==> ss.metadata is Some,
        PaxosMsg::AcceptStopSign(p) => p.ss.metadata is Some,
        _ => true,
    }
}

/// Round trip of the Paxos codec: the request body built for a
/// canonical message decodes back to an equivalent message.  Together
/// with the encoder's guarantee that its output is well formed and the
/// decoder's guarantee that every well-formed body decodes, this says
/// the inbound service reconstructs exactly what the outbound transport
/// was handed.
pub proof fn lemma_paxos_round_trip(w: WirePaxosMessage, m1: Message, m2: Message)
    requires
        paxos_wires(w, m1),
        paxos_unwires(m2, w),
        message_canonical(m1),
    ensures
        message_eq(m1, m2),
{
    match m1.msg {
        PaxosMsg::PrepareReq => {},
        PaxosMsg::Prepare(_) => {},
        PaxosMsg::Promise(p1) => {
            let x = w->Promise_0;
            let p2 = m2.msg->Promise_0;
            lemma_opt_sync_item_round_trip(x.sync_item, p1.sync_item, p2.sync_item);
            lemma_opt_stopsign_round_trip(x.stopsign, p1.stopsign, p2.stopsign);
        },
        PaxosMsg::AcceptSync(p1) => {
            let x = w->AcceptSync_0;
            let p2 = m2.msg->AcceptSync_0;
            lemma_sync_item_round_trip(x.sync_item->0, p1.sync_item, p2.sync_item);
            lemma_opt_stopsign_round_trip(x.stopsign, p1.stopsign, p2.stopsign);
        },
        PaxosMsg::FirstAccept(p1) => {
            let x = w->FirstAccept_0;
            let p2 = m2.msg->FirstAccept_0;
            lemma_entries_round_trip(x.entries@, p1.entries@, p2.entries@);
        },
        PaxosMsg::AcceptDecide(p1) => {
            let x = w->AcceptDecide_0;
            let p2 = m2.msg->AcceptDecide_0;
            lemma_entries_round_trip(x.entries@, p1.entries@, p2.entries@);
        },
        PaxosMsg::Accepted(_) => {},
        PaxosMsg::Decide(_) => {},
        PaxosMsg::ProposalForward(props1) => {
            let x = w->ProposalForward_0;
            let props2 = m2.msg->ProposalForward_0;
            lemma_entries_round_trip(x.proposals@, props1@, props2@);
        },
        PaxosMsg::Compaction(_) => {},
        PaxosMsg::ForwardCompaction(_) => {},
        PaxosMsg::AcceptStopSign(p1) => {
            let x = w->AcceptStopSign_0;
            let p2 = m2.msg->AcceptStopSign_0;
            lemma_stopsign_round_trip(x.stopsign->0, p1.ss, p2.ss);
        },
        PaxosMsg::AcceptedStopSign(_) => {},
        PaxosMsg::DecideStopSign(_) => {},
    }
}

/// Round trip of the heartbeat codec: exact, with no canonicity caveat.
pub proof fn lemma_ble_round_trip(w: crate::wire::WireBleMessage, m1: BleMessage, m2: BleMessage)
    requires
        ble_wires(w, m1),
        ble_unwires(m2, w),
    ensures
        m1 == m2,
{
}

} // verus!
