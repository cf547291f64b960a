//! Message-level codec of the RPC surface.
//!
//! The outbound transport turns one addressed protocol message into the
//! request body of the matching RPC method (`get_proto_message`,
//! `get_proto_ble_message`); the inbound service turns a received body
//! back into an addressed message, one decoder per RPC method.  The
//! relations `paxos_wires` / `paxos_unwires` (and their heartbeat
//! counterparts) state the two directions; the round-trip laws over them
//! live in `laws`.

use vstd::prelude::*;

use crate::codec::{
    ballot_wires, compaction_wires, entries_wire, get_ballot_from_proto, get_compaction_from_proto,
    get_entries_from_proto, get_proto_ballot, get_proto_compaction, get_proto_entries,
    get_proto_stop_sign, get_proto_sync_item, get_stopsign_from_proto, get_syncitem_from_proto,
    stopsign_unwires, stopsign_wires, sync_item_unwires, sync_item_wires, DecodeError,
};
use crate::message::{
    AcceptDecide, AcceptStopSign, AcceptSync, Accepted, AcceptedStopSign, BleMessage, Decide,
    DecideStopSign, FirstAccept, HeartbeatMsg, HeartbeatReply, HeartbeatRequest, Message, PaxosMsg,
    Prepare, Promise, StopSign, SyncItem,
};
use crate::wire::{
    wire_ble_wf, wire_paxos_wf, WireAcceptDecide, WireAcceptStopSign, WireAcceptSync, WireAccepted,
    WireAcceptedStopSign, WireBleMessage, WireCompaction, WireDecide,
    WireDecideStopSign, WireFirstAccept, WireForwardCompaction, WireHeartbeatReply,
    WireHeartbeatRequest, WirePaxosMessage, WirePrepare, WirePrepareReq, WirePromise,
    WireProposalForward, WireStopSign, WireSyncItem,
};

verus! {

/// An optional wire stop sign is the encoding of an optional stop sign.
pub open spec fn opt_stopsign_wires(w: Option<WireStopSign>, ss: Option<StopSign>) -> bool {
    match ss {
        Some(s) => w matches Some(ws) && stopsign_wires(ws, s),
        None => w is None,
    }
}

/// An optional stop sign is the decoding of an optional wire stop sign.
pub open spec fn opt_stopsign_unwires(ss: Option<StopSign>, w: Option<WireStopSign>) -> bool {
    match w {
        Some(ws) => ss matches Some(s) && stopsign_unwires(s, ws),
        None => ss is None,
    }
}

/// An optional wire sync item is the encoding of an optional sync item.
pub open spec fn opt_sync_item_wires(w: Option<WireSyncItem>, s: Option<SyncItem>) -> bool {
    match s {
        Some(si) => w matches Some(ws) && sync_item_wires(ws, si),
        None => w is None,
    }
}

/// An optional sync item is the decoding of an optional wire sync item.
pub open spec fn opt_sync_item_unwires(s: Option<SyncItem>, w: Option<WireSyncItem>) -> bool {
    match w {
        Some(ws) => s matches Some(si) && sync_item_unwires(si, ws),
        None => s is None,
    }
}

/// `w` is the request body that the outbound path builds for message
/// `m`: the matching RPC method's body, endpoints copied, every payload
/// field encoded by the component codec.
pub open spec fn paxos_wires(w: WirePaxosMessage, m: Message) -> bool {
    match m.msg {
        PaxosMsg::PrepareReq => {
            &&& w matches WirePaxosMessage::PrepareReq(x)
            &&& x.from == m.from
            &&& x.to == m.to
        },
        PaxosMsg::Prepare(p) => {
            &&& w matches WirePaxosMessage::Prepare(x)
            &&& x.from == m.from
            &&& x.to == m.to
            &&& x.n matches Some(nb) && ballot_wires(nb, p.n)
            &&& x.ld == p.ld
            &&& x.n_accepted matches Some(ab) && ballot_wires(ab, p.n_accepted)
            &&& x.la == p.la
        },
        PaxosMsg::Promise(p) => {
            &&& w matches WirePaxosMessage::Promise(x)
            &&& x.from == m.from
            &&& x.to == m.to
            &&& x.n matches Some(nb) && ballot_wires(nb, p.n)
            &&& x.n_accepted matches Some(ab) && ballot_wires(ab, p.n_accepted)
            &&& opt_sync_item_wires(x.sync_item, p.sync_item)
            &&& x.ld == p.ld
            &&& x.la == p.la
            &&& opt_stopsign_wires(x.stopsign, p.stopsign)
        },
        PaxosMsg::AcceptSync(p) => {
            &&& w matches WirePaxosMessage::AcceptSync(x)
            &&& x.from == m.from
            &&& x.to == m.to
            &&& x.n matches Some(nb) && ballot_wires(nb, p.n)
            &&& x.sync_item matches Some(ws) && sync_item_wires(ws, p.sync_item)
            &&& x.sync_idx == p.sync_idx
            &&& x.decided_idx == p.decide_idx
            &&& opt_stopsign_wires(x.stopsign, p.stopsign)
        },
        PaxosMsg::FirstAccept(p) => {
            &&& w matches WirePaxosMessage::FirstAccept(x)
            &&& x.from == m.from
            &&& x.to == m.to
            &&& x.n matches Some(nb) && ballot_wires(nb, p.n)
            &&& entries_wire(x.entries@, p.entries@)
        },
        PaxosMsg::AcceptDecide(p) => {
            &&& w matches WirePaxosMessage::AcceptDecide(x)
            &&& x.from == m.from
            &&& x.to == m.to
            &&& x.n matches Some(nb) && ballot_wires(nb, p.n)
            &&& x.ld == p.ld
            &&& entries_wire(x.entries@, p.entries@)
        },
        PaxosMsg::Accepted(p) => {
            &&& w matches WirePaxosMessage::Accepted(x)
            &&& x.from == m.from
            &&& x.to == m.to
            &&& x.n matches Some(nb) && ballot_wires(nb, p.n)
            &&& x.la == p.la
        },
        PaxosMsg::Decide(p) => {
            &&& w matches WirePaxosMessage::Decide(x)
            &&& x.from == m.from
            &&& x.to == m.to
            &&& x.n matches Some(nb) && ballot_wires(nb, p.n)
            &&& x.ld == p.ld
        },
        PaxosMsg::ProposalForward(props) => {
            &&& w matches WirePaxosMessage::ProposalForward(x)
            &&& x.from == m.from
            &&& x.to == m.to
            &&& entries_wire(x.proposals@, props@)
        },
        PaxosMsg::Compaction(c) => {
            &&& w matches WirePaxosMessage::Compaction(x)
            &&& x.from == m.from
            &&& x.to == m.to
            &&& x.compaction matches Some(wc) && compaction_wires(wc, c)
        },
        PaxosMsg::ForwardCompaction(c) => {
            &&& w matches WirePaxosMessage::ForwardCompaction(x)
            &&& x.from == m.from
            &&& x.to == m.to
            &&& x.compaction matches Some(wc) && compaction_wires(wc, c)
        },
        PaxosMsg::AcceptStopSign(p) => {
            &&& w matches WirePaxosMessage::AcceptStopSign(x)
            &&& x.from == m.from
            &&& x.to == m.to
            &&& x.n matches Some(nb) && ballot_wires(nb, p.n)
            &&& x.stopsign matches Some(ws) && stopsign_wires(ws, p.ss)
        },
        PaxosMsg::AcceptedStopSign(p) => {
            &&& w matches WirePaxosMessage::AcceptedStopSign(x)
            &&& x.from == m.from
            &&& x.to == m.to
            &&& x.n matches Some(nb) && ballot_wires(nb, p.n)
        },
        PaxosMsg::DecideStopSign(p) => {
            &&& w matches WirePaxosMessage::DecideStopSign(x)
            &&& x.from == m.from
            &&& x.to == m.to
            &&& x.n matches Some(nb) && ballot_wires(nb, p.n)
        },
    }
}

/// `m` is the message that the inbound service builds from request body
/// `w`: endpoints copied, every payload field decoded by the component
/// codec.
pub open spec fn paxos_unwires(m: Message, w: WirePaxosMessage) -> bool {
    match w {
        WirePaxosMessage::PrepareReq(x) => {
            &&& m.from == x.from
            &&& m.to == x.to
            &&& m.msg is PrepareReq
        },
        WirePaxosMessage::Prepare(x) => {
            &&& m.from == x.from
            &&& m.to == x.to
            &&& m.msg matches PaxosMsg::Prepare(p)
            &&& x.n matches Some(nb) && ballot_wires(nb, p.n)
            &&& p.ld == x.ld
            &&& x.n_accepted matches Some(ab) && ballot_wires(ab, p.n_accepted)
            &&& p.la == x.la
        },
        WirePaxosMessage::Promise(x) => {
            &&& m.from == x.from
            &&& m.to == x.to
            &&& m.msg matches PaxosMsg::Promise(p)
            &&& x.n matches Some(nb) && ballot_wires(nb, p.n)
            &&& x.n_accepted matches Some(ab) && ballot_wires(ab, p.n_accepted)
            &&& opt_sync_item_unwires(p.sync_item, x.sync_item)
            &&& p.ld == x.ld
            &&& p.la == x.la
            &&& opt_stopsign_unwires(p.stopsign, x.stopsign)
        },
        WirePaxosMessage::AcceptSync(x) => {
            &&& m.from == x.from
            &&& m.to == x.to
            &&& m.msg matches PaxosMsg::AcceptSync(p)
            &&& x.n matches Some(nb) && ballot_wires(nb, p.n)
            &&& x.sync_item matches Some(ws) && sync_item_unwires(p.sync_item, ws)
            &&& p.sync_idx == x.sync_idx
            &&& p.decide_idx == x.decided_idx
            &&& opt_stopsign_unwires(p.stopsign, x.stopsign)
        },
        WirePaxosMessage::FirstAccept(x) => {
            &&& m.from == x.from
            &&& m.to == x.to
            &&& m.msg matches PaxosMsg::FirstAccept(p)
            &&& x.n matches Some(nb) && ballot_wires(nb, p.n)
            &&& entries_wire(x.entries@, p.entries@)
        },
        WirePaxosMessage::AcceptDecide(x) => {
            &&& m.from == x.from
            &&& m.to == x.to
            &&& m.msg matches PaxosMsg::AcceptDecide(p)
            &&& x.n matches Some(nb) && ballot_wires(nb, p.n)
            &&& p.ld == x.ld
            &&& entries_wire(x.entries@, p.entries@)
        },
        WirePaxosMessage::Accepted(x) => {
            &&& m.from == x.from
            &&& m.to == x.to
            &&& m.msg matches PaxosMsg::Accepted(p)
            &&& x.n matches Some(nb) && ballot_wires(nb, p.n)
            &&& p.la == x.la
        },
        WirePaxosMessage::Decide(x) => {
            &&& m.from == x.from
            &&& m.to == x.to
            &&& m.msg matches PaxosMsg::Decide(p)
            &&& x.n matches Some(nb) && ballot_wires(nb, p.n)
            &&& p.ld == x.ld
        },
        WirePaxosMessage::ProposalForward(x) => {
            &&& m.from == x.from
            &&& m.to == x.to
            &&& m.msg matches PaxosMsg::ProposalForward(props)
            &&& entries_wire(x.proposals@, props@)
        },
        WirePaxosMessage::Compaction(x) => {
            &&& m.from == x.from
            &&& m.to == x.to
            &&& m.msg matches PaxosMsg::Compaction(c)
            &&& x.compaction matches Some(wc) && compaction_wires(wc, c)
        },
        WirePaxosMessage::ForwardCompaction(x) => {
            &&& m.from == x.from
            &&& m.to == x.to
            &&& m.msg matches PaxosMsg::ForwardCompaction(c)
            &&& x.compaction matches Some(wc) && compaction_wires(wc, c)
        },
        WirePaxosMessage::AcceptStopSign(x) => {
            &&& m.from == x.from
            &&& m.to == x.to
            &&& m.msg matches PaxosMsg::AcceptStopSign(p)
            &&& x.n matches Some(nb) && ballot_wires(nb, p.n)
            &&& x.stopsign matches Some(ws) && stopsign_unwires(p.ss, ws)
        },
        WirePaxosMessage::AcceptedStopSign(x) => {
            &&& m.from == x.from
            &&& m.to == x.to
            &&& m.msg matches PaxosMsg::AcceptedStopSign(p)
            &&& x.n matches Some(nb) && ballot_wires(nb, p.n)
        },
        WirePaxosMessage::DecideStopSign(x) => {
            &&& m.from == x.from
            &&& m.to == x.to
            &&& m.msg matches PaxosMsg::DecideStopSign(p)
            &&& x.n matches Some(nb) && ballot_wires(nb, p.n)
        },
    }
}

/// `w` is the request body built for heartbeat message `m`.
pub open spec fn ble_wires(w: WireBleMessage, m: BleMessage) -> bool {
    match m.msg {
        HeartbeatMsg::Request(req) => {
            &&& w matches WireBleMessage::HeartbeatRequest(x)
            &&& x.from == m.from
            &&& x.to == m.to
            &&& x.round == req.round
        },
        HeartbeatMsg::Reply(rep) => {
            &&& w matches WireBleMessage::HeartbeatReply(x)
            &&& x.from == m.from
            &&& x.to == m.to
            &&& x.round == rep.round
            &&& x.ballot matches Some(b) && ballot_wires(b, rep.ballot)
            &&& x.majority_connected == rep.majority_connected
        },
    }
}

/// `m` is the heartbeat message decoded from request body `w`.
pub open spec fn ble_unwires(m: BleMessage, w: WireBleMessage) -> bool {
    match w {
        WireBleMessage::HeartbeatRequest(x) => {
            &&& m.from == x.from
            &&& m.to == x.to
            &&& m.msg matches HeartbeatMsg::Request(req)
            &&& req.round == x.round
        },
        WireBleMessage::HeartbeatReply(x) => {
            &&& m.from == x.from
            &&& m.to == x.to
            &&& m.msg matches HeartbeatMsg::Reply(rep)
            &&& rep.round == x.round
            &&& x.ballot matches Some(b) && ballot_wires(b, rep.ballot)
            &&& rep.majority_connected == x.majority_connected
        },
    }
}

/// Builds the request body that the outbound path sends for one Paxos
/// message.
pub fn get_proto_message(msg: Message) -> (r: WirePaxosMessage)
    ensures
        paxos_wires(r, msg),
        wire_paxos_wf(r),
{
    let from = msg.from;
    let to = msg.to;
    match msg.msg {
        PaxosMsg::PrepareReq => WirePaxosMessage::PrepareReq(WirePrepareReq { from, to }),
        PaxosMsg::Prepare(prep) => WirePaxosMessage::Prepare(
            WirePrepare {
                from,
                to,
                n: Some(get_proto_ballot(prep.n)),
                ld: prep.ld,
                n_accepted: Some(get_proto_ballot(prep.n_accepted)),
                la: prep.la,
            },
        ),
        PaxosMsg::Promise(prom) => {
            let sync_item = match prom.sync_item {
                Some(sync_item) => Some(get_proto_sync_item(sync_item)),
                None => None,
            };
            let stopsign = match prom.stopsign {
                Some(stopsign) => Some(get_proto_stop_sign(stopsign)),
                None => None,
            };
            WirePaxosMessage::Promise(
                WirePromise {
                    from,
                    to,
                    n: Some(get_proto_ballot(prom.n)),
                    n_accepted: Some(get_proto_ballot(prom.n_accepted)),
                    sync_item,
                    ld: prom.ld,
                    la: prom.la,
                    stopsign,
                },
            )
        },
        PaxosMsg::AcceptSync(acc_sync) => {
            let stopsign = match acc_sync.stopsign {
                Some(stopsign) => Some(get_proto_stop_sign(stopsign)),
                None => None,
            };
            WirePaxosMessage::AcceptSync(
                WireAcceptSync {
                    from,
                    to,
                    n: Some(get_proto_ballot(acc_sync.n)),
                    sync_item: Some(get_proto_sync_item(acc_sync.sync_item)),
                    sync_idx: acc_sync.sync_idx,
                    decided_idx: acc_sync.decide_idx,
                    stopsign,
                },
            )
        },
        PaxosMsg::FirstAccept(f) => WirePaxosMessage::FirstAccept(
            WireFirstAccept {
                from,
                to,
                n: Some(get_proto_ballot(f.n)),
                entries: get_proto_entries(&f.entries),
            },
        ),
        PaxosMsg::AcceptDecide(acc) => WirePaxosMessage::AcceptDecide(
            WireAcceptDecide {
                from,
                to,
                n: Some(get_proto_ballot(acc.n)),
                ld: acc.ld,
                entries: get_proto_entries(&acc.entries),
            },
        ),
        PaxosMsg::Accepted(accepted) => WirePaxosMessage::Accepted(
            WireAccepted { from, to, n: Some(get_proto_ballot(accepted.n)), la: accepted.la },
        ),
        PaxosMsg::Decide(dec) => WirePaxosMessage::Decide(
            WireDecide { from, to, n: Some(get_proto_ballot(dec.n)), ld: dec.ld },
        ),
        PaxosMsg::ProposalForward(props) => WirePaxosMessage::ProposalForward(
            WireProposalForward { from, to, proposals: get_proto_entries(&props) },
        ),
        PaxosMsg::Compaction(comps) => WirePaxosMessage::Compaction(
            WireCompaction { from, to, compaction: Some(get_proto_compaction(comps)) },
        ),
        PaxosMsg::ForwardCompaction(comps) => WirePaxosMessage::ForwardCompaction(
            WireForwardCompaction { from, to, compaction: Some(get_proto_compaction(comps)) },
        ),
        PaxosMsg::AcceptStopSign(acc_ss) => WirePaxosMessage::AcceptStopSign(
            WireAcceptStopSign {
                from,
                to,
                n: Some(get_proto_ballot(acc_ss.n)),
                stopsign: Some(get_proto_stop_sign(acc_ss.ss)),
            },
        ),
        PaxosMsg::AcceptedStopSign(acc_ss) => WirePaxosMessage::AcceptedStopSign(
            WireAcceptedStopSign { from, to, n: Some(get_proto_ballot(acc_ss.n)) },
        ),
        PaxosMsg::DecideStopSign(d_ss) => WirePaxosMessage::DecideStopSign(
            WireDecideStopSign { from, to, n: Some(get_proto_ballot(d_ss.n)) },
        ),
    }
}

/// Builds the request body that the outbound path sends for one
/// heartbeat message.
pub fn get_proto_ble_message(ble_msg: BleMessage) -> (r: WireBleMessage)
    ensures
        ble_wires(r, ble_msg),
        wire_ble_wf(r),
{
    let from = ble_msg.from;
    let to = ble_msg.to;
    match ble_msg.msg {
        HeartbeatMsg::Request(req) => WireBleMessage::HeartbeatRequest(
            WireHeartbeatRequest { from, to, round: req.round },
        ),
        HeartbeatMsg::Reply(reply) => WireBleMessage::HeartbeatReply(
            WireHeartbeatReply {
                from,
                to,
                round: reply.round,
                ballot: Some(get_proto_ballot(reply.ballot)),
                majority_connected: reply.majority_connected,
            },
        ),
    }
}

/// Decodes a PrepareReq body; it has no required payload fields.
pub fn get_prepare_req_from_proto(msg: WirePrepareReq) -> (r: Message)
    ensures
        paxos_unwires(r, WirePaxosMessage::PrepareReq(msg)),
{
    Message { from: msg.from, to: msg.to, msg: PaxosMsg::PrepareReq }
}

/// Decodes a Prepare body; both ballots are required.
pub fn get_prepare_from_proto(msg: WirePrepare) -> (r: Result<Message, DecodeError>)
    ensures
        r is Ok <==> wire_paxos_wf(WirePaxosMessage::Prepare(msg)),
        r matches Ok(m) ==> paxos_unwires(m, WirePaxosMessage::Prepare(msg)),
        r matches Err(e) ==> e == DecodeError::MissingField,
{
    let (n, n_accepted) = match (msg.n, msg.n_accepted) {
        (Some(n), Some(na)) => (get_ballot_from_proto(n), get_ballot_from_proto(na)),
        _ => {
            return Err(DecodeError::MissingField);
        },
    };
    let prep = Prepare { n, ld: msg.ld, n_accepted, la: msg.la };
    Ok(Message { from: msg.from, to: msg.to, msg: PaxosMsg::Prepare(prep) })
}

/// Decodes a Promise body; both ballots are required, and a sync item,
/// if present, must carry its payload tag.
pub fn get_promise_from_proto(msg: WirePromise) -> (r: Result<Message, DecodeError>)
    ensures
        r is Ok <==> wire_paxos_wf(WirePaxosMessage::Promise(msg)),
        r matches Ok(m) ==> paxos_unwires(m, WirePaxosMessage::Promise(msg)),
        r matches Err(e) ==> e == DecodeError::MissingField,
{
    let (n, n_accepted) = match (msg.n, msg.n_accepted) {
        (Some(n), Some(na)) => (get_ballot_from_proto(n), get_ballot_from_proto(na)),
        _ => {
            return Err(DecodeError::MissingField);
        },
    };
    let sync_item = match msg.sync_item {
        Some(sync_item) => match get_syncitem_from_proto(sync_item) {
            Ok(s) => Some(s),
            Err(e) => {
                return Err(e);
            },
        },
        None => None,
    };
    let stopsign = match msg.stopsign {
        Some(stopsign) => Some(get_stopsign_from_proto(stopsign)),
        None => None,
    };
    let promise = Promise { n, n_accepted, sync_item, ld: msg.ld, la: msg.la, stopsign };
    Ok(Message { from: msg.from, to: msg.to, msg: PaxosMsg::Promise(promise) })
}

/// Decodes an AcceptSync body; the ballot and the sync item are
/// required.
pub fn get_accept_sync_from_proto(msg: WireAcceptSync) -> (r: Result<Message, DecodeError>)
    ensures
        r is Ok <==> wire_paxos_wf(WirePaxosMessage::AcceptSync(msg)),
        r matches Ok(m) ==> paxos_unwires(m, WirePaxosMessage::AcceptSync(msg)),
        r matches Err(e) ==> e == DecodeError::MissingField,
{
    let n = match msg.n {
        Some(n) => get_ballot_from_proto(n),
        None => {
            return Err(DecodeError::MissingField);
        },
    };
    let sync_item = match msg.sync_item {
        Some(sync_item) => match get_syncitem_from_proto(sync_item) {
            Ok(s) => s,
            Err(e) => {
                return Err(e);
            },
        },
        None => {
            return Err(DecodeError::MissingField);
        },
    };
    let stopsign = match msg.stopsign {
        Some(stopsign) => Some(get_stopsign_from_proto(stopsign)),
        None => None,
    };
    let acc_sync = AcceptSync {
        n,
        sync_item,
        sync_idx: msg.sync_idx,
        decide_idx: msg.decided_idx,
        stopsign,
    };
    Ok(Message { from: msg.from, to: msg.to, msg: PaxosMsg::AcceptSync(acc_sync) })
}

/// Decodes a FirstAccept body; the ballot is required.
pub fn get_first_accept_from_proto(msg: WireFirstAccept) -> (r: Result<Message, DecodeError>)
    ensures
        r is Ok <==> wire_paxos_wf(WirePaxosMessage::FirstAccept(msg)),
        r matches Ok(m) ==> paxos_unwires(m, WirePaxosMessage::FirstAccept(msg)),
        r matches Err(e) ==> e == DecodeError::MissingField,
{
    let n = match msg.n {
        Some(n) => get_ballot_from_proto(n),
        None => {
            return Err(DecodeError::MissingField);
        },
    };
    let entries = get_entries_from_proto(&msg.entries);
    let first_acc = FirstAccept { n, entries };
    Ok(Message { from: msg.from, to: msg.to, msg: PaxosMsg::FirstAccept(first_acc) })
}

/// Decodes an AcceptDecide body; the ballot is required.
pub fn get_accept_decide_from_proto(msg: WireAcceptDecide) -> (r: Result<Message, DecodeError>)
    ensures
        r is Ok <==> wire_paxos_wf(WirePaxosMessage::AcceptDecide(msg)),
        r matches Ok(m) ==> paxos_unwires(m, WirePaxosMessage::AcceptDecide(msg)),
        r matches Err(e) ==> e == DecodeError::MissingField,
{
    let n = match msg.n {
        Some(n) => get_ballot_from_proto(n),
        None => {
            return Err(DecodeError::MissingField);
        },
    };
    let entries = get_entries_from_proto(&msg.entries);
    let acc_dec = AcceptDecide { n, ld: msg.ld, entries };
    Ok(Message { from: msg.from, to: msg.to, msg: PaxosMsg::AcceptDecide(acc_dec) })
}

/// Decodes an Accepted body; the ballot is required.
pub fn get_accepted_from_proto(msg: WireAccepted) -> (r: Result<Message, DecodeError>)
    ensures
        r is Ok <==> wire_paxos_wf(WirePaxosMessage::Accepted(msg)),
        r matches Ok(m) ==> paxos_unwires(m, WirePaxosMessage::Accepted(msg)),
        r matches Err(e) ==> e == DecodeError::MissingField,
{
    let n = match msg.n {
        Some(n) => get_ballot_from_proto(n),
        None => {
            return Err(DecodeError::MissingField);
        },
    };
    let acc = Accepted { n, la: msg.la };
    Ok(Message { from: msg.from, to: msg.to, msg: PaxosMsg::Accepted(acc) })
}

/// Decodes a Decide body; the ballot is required.
pub fn get_decide_from_proto(msg: WireDecide) -> (r: Result<Message, DecodeError>)
    ensures
        r is Ok <==> wire_paxos_wf(WirePaxosMessage::Decide(msg)),
        r matches Ok(m) ==> paxos_unwires(m, WirePaxosMessage::Decide(msg)),
        r matches Err(e) ==> e == DecodeError::MissingField,
{
    let n = match msg.n {
        Some(n) => get_ballot_from_proto(n),
        None => {
            return Err(DecodeError::MissingField);
        },
    };
    let dec = Decide { n, ld: msg.ld };
    Ok(Message { from: msg.from, to: msg.to, msg: PaxosMsg::Decide(dec) })
}

/// Decodes a ProposalForward body; it has no required payload fields.
pub fn get_proposal_forward_from_proto(msg: WireProposalForward) -> (r: Message)
    ensures
        paxos_unwires(r, WirePaxosMessage::ProposalForward(msg)),
{
    let proposals = get_entries_from_proto(&msg.proposals);
    Message { from: msg.from, to: msg.to, msg: PaxosMsg::ProposalForward(proposals) }
}

/// Decodes a Compaction body; the compaction payload is required.
pub fn get_compaction_msg_from_proto(msg: WireCompaction) -> (r: Result<Message, DecodeError>)
    ensures
        r is Ok <==> wire_paxos_wf(WirePaxosMessage::Compaction(msg)),
        r matches Ok(m) ==> paxos_unwires(m, WirePaxosMessage::Compaction(msg)),
        r matches Err(e) ==> e == DecodeError::MissingField,
{
    let compaction = match msg.compaction {
        Some(c) => get_compaction_from_proto(c),
        None => {
            return Err(DecodeError::MissingField);
        },
    };
    Ok(Message { from: msg.from, to: msg.to, msg: PaxosMsg::Compaction(compaction) })
}

/// Decodes a ForwardCompaction body; the compaction payload is required.
pub fn get_forward_compaction_msg_from_proto(msg: WireForwardCompaction) -> (r: Result<
    Message,
    DecodeError,
>)
    ensures
        r is Ok <==> wire_paxos_wf(WirePaxosMessage::ForwardCompaction(msg)),
        r matches Ok(m) ==> paxos_unwires(m, WirePaxosMessage::ForwardCompaction(msg)),
        r matches Err(e) ==> e == DecodeError::MissingField,
{
    let compaction = match msg.compaction {
        Some(c) => get_compaction_from_proto(c),
        None => {
            return Err(DecodeError::MissingField);
        },
    };
    Ok(Message { from: msg.from, to: msg.to, msg: PaxosMsg::ForwardCompaction(compaction) })
}

/// Decodes an AcceptStopSign body; the ballot and the stop sign are
/// required.
pub fn get_accept_stop_sign_from_proto(msg: WireAcceptStopSign) -> (r: Result<
    Message,
    DecodeError,
>)
    ensures
        r is Ok <==> wire_paxos_wf(WirePaxosMessage::AcceptStopSign(msg)),
        r matches Ok(m) ==> paxos_unwires(m, WirePaxosMessage::AcceptStopSign(msg)),
        r matches Err(e) ==> e == DecodeError::MissingField,
{
    let n = match msg.n {
        Some(n) => get_ballot_from_proto(n),
        None => {
            return Err(DecodeError::MissingField);
        },
    };
    let stopsign = match msg.stopsign {
        Some(ss) => get_stopsign_from_proto(ss),
        None => {
            return Err(DecodeError::MissingField);
        },
    };
    let acc_ss = AcceptStopSign { n, ss: stopsign };
    Ok(Message { from: msg.from, to: msg.to, msg: PaxosMsg::AcceptStopSign(acc_ss) })
}

/// Decodes an AcceptedStopSign body; the ballot is required.
pub fn get_accepted_stop_sign_from_proto(msg: WireAcceptedStopSign) -> (r: Result<
    Message,
    DecodeError,
>)
    ensures
        r is Ok <==> wire_paxos_wf(WirePaxosMessage::AcceptedStopSign(msg)),
        r matches Ok(m) ==> paxos_unwires(m, WirePaxosMessage::AcceptedStopSign(msg)),
        r matches Err(e) ==> e == DecodeError::MissingField,
{
    let n = match msg.n {
        Some(n) => get_ballot_from_proto(n),
        None => {
            return Err(DecodeError::MissingField);
        },
    };
    let acced_ss = AcceptedStopSign { n };
    Ok(Message { from: msg.from, to: msg.to, msg: PaxosMsg::AcceptedStopSign(acced_ss) })
}

/// Decodes a DecideStopSign body; the ballot is required.
pub fn get_decide_stop_sign_from_proto(msg: WireDecideStopSign) -> (r: Result<
    Message,
    DecodeError,
>)
    ensures
        r is Ok <==> wire_paxos_wf(WirePaxosMessage::DecideStopSign(msg)),
        r matches Ok(m) ==> paxos_unwires(m, WirePaxosMessage::DecideStopSign(msg)),
        r matches Err(e) ==> e == DecodeError::MissingField,
{
    let n = match msg.n {
        Some(n) => get_ballot_from_proto(n),
        None => {
            return Err(DecodeError::MissingField);
        },
    };
    let dec_ss = DecideStopSign { n };
    Ok(Message { from: msg.from, to: msg.to, msg: PaxosMsg::DecideStopSign(dec_ss) })
}

/// Decodes a heartbeat request body; it has no required payload fields.
pub fn get_heartbeat_request_from_proto(msg: WireHeartbeatRequest) -> (r: BleMessage)
    ensures
        ble_unwires(r, WireBleMessage::HeartbeatRequest(msg)),
{
    let req = HeartbeatRequest { round: msg.round };
    BleMessage { from: msg.from, to: msg.to, msg: HeartbeatMsg::Request(req) }
}

/// Decodes a heartbeat reply body; the ballot is required.
pub fn get_heartbeat_reply_from_proto(msg: WireHeartbeatReply) -> (r: Result<
    BleMessage,
    DecodeError,
>)
    ensures
        r is Ok <==> wire_ble_wf(WireBleMessage::HeartbeatReply(msg)),
        r matches Ok(m) ==> ble_unwires(m, WireBleMessage::HeartbeatReply(msg)),
        r matches Err(e) ==> e == DecodeError::MissingField,
{
    let ballot = match msg.ballot {
        Some(b) => get_ballot_from_proto(b),
        None => {
            return Err(DecodeError::MissingField);
        },
    };
    let rep = HeartbeatReply { round: msg.round, ballot, majority_connected: msg.majority_connected };
    Ok(BleMessage { from: msg.from, to: msg.to, msg: HeartbeatMsg::Reply(rep) })
}

/// Decodes any Paxos request body into an addressed message, or reports
/// the missing required field.
pub fn get_message_from_proto(w: WirePaxosMessage) -> (r: Result<Message, DecodeError>)
    ensures
        r is Ok <==> wire_paxos_wf(w),
        r matches Ok(m) ==> paxos_unwires(m, w),
        r matches Err(e) ==> e == DecodeError::MissingField,
{
    match w {
        WirePaxosMessage::PrepareReq(x) => Ok(get_prepare_req_from_proto(x)),
        WirePaxosMessage::Prepare(x) => get_prepare_from_proto(x),
        WirePaxosMessage::Promise(x) => get_promise_from_proto(x),
        WirePaxosMessage::AcceptSync(x) => get_accept_sync_from_proto(x),
        WirePaxosMessage::FirstAccept(x) => get_first_accept_from_proto(x),
        WirePaxosMessage::AcceptDecide(x) => get_accept_decide_from_proto(x),
        WirePaxosMessage::Accepted(x) => get_accepted_from_proto(x),
        WirePaxosMessage::Decide(x) => get_decide_from_proto(x),
        WirePaxosMessage::ProposalForward(x) => Ok(get_proposal_forward_from_proto(x)),
        WirePaxosMessage::Compaction(x) => get_compaction_msg_from_proto(x),
        WirePaxosMessage::ForwardCompaction(x) => get_forward_compaction_msg_from_proto(x),
        WirePaxosMessage::AcceptStopSign(x) => get_accept_stop_sign_from_proto(x),
        WirePaxosMessage::AcceptedStopSign(x) => get_accepted_stop_sign_from_proto(x),
        WirePaxosMessage::DecideStopSign(x) => get_decide_stop_sign_from_proto(x),
    }
}

/// `w` carries exactly the rows of `q`, each column rendered as the
/// same string.
pub open spec fn results_wire(
    w: crate::wire::WireQueryResults,
    q: crate::message::QueryResults,
) -> bool {
    &&& w.rows@.len() == q.rows@.len()
    &&& forall|i: int| 0 <= i < q.rows@.len() ==> {
        &&& (#[trigger] w.rows@[i]).values@.len() == q.rows@[i].values@.len()
        &&& forall|j: int|
            0 <= j < q.rows@[i].values@.len() ==> (#[trigger] w.rows@[i].values@[j])@
                == q.rows@[i].values@[j]@
    }
}

/// Decodes the consistency level of a client query.  The two known
/// values map to their levels; any unknown value defaults to strong
/// consistency.
pub fn get_consistency_from_proto(value: i32) -> (r: crate::message::Consistency)
    ensures
        r == if value == 1 {
            crate::message::Consistency::RelaxedReads
        } else {
            crate::message::Consistency::Strong
        },
{
    if value == 1 {
        crate::message::Consistency::RelaxedReads
    } else {
        crate::message::Consistency::Strong
    }
}

/// Decodes a client query body into the statement text and its
/// consistency level.
pub fn get_query_from_proto(query: crate::wire::WireQuery) -> (r: (
    String,
    crate::message::Consistency,
))
    ensures
        r.0@ == query.sql@,
        r.1 == if query.consistency == 1 {
            crate::message::Consistency::RelaxedReads
        } else {
            crate::message::Consistency::Strong
        },
{
    let consistency = get_consistency_from_proto(query.consistency);
    (query.sql, consistency)
}

/// Encodes the result rows of a finished query for the response body.
pub fn get_proto_query_results(results: &crate::message::QueryResults) -> (r:
    crate::wire::WireQueryResults)
    ensures
        results_wire(r, *results),
{
    let mut rows: Vec<crate::wire::WireQueryRow> = Vec::new();
    let mut i: usize = 0;
    while i < results.rows.len()
        invariant
            i <= results.rows@.len(),
            rows@.len() == i,
            forall|k: int| 0 <= k < i ==> {
                &&& (#[trigger] rows@[k]).values@.len() == results.rows@[k].values@.len()
                &&& forall|j: int|
                    0 <= j < results.rows@[k].values@.len() ==> (#[trigger] rows@[k].values@[j])@
                        == results.rows@[k].values@[j]@
            },
        decreases results.rows@.len() - i,
    {
        let row = &results.rows[i];
        let mut values: Vec<String> = Vec::new();
        let mut j: usize = 0;
        while j < row.values.len()
            invariant
                j <= row.values@.len(),
                values@.len() == j,
                forall|k: int| 0 <= k < j ==> (#[trigger] values@[k])@ == row.values@[k]@,
            decreases row.values@.len() - j,
        {
            values.push(row.values[j].clone());
            j = j + 1;
        }
        rows.push(crate::wire::WireQueryRow { values });
        i = i + 1;
    }
    crate::wire::WireQueryResults { rows }
}

/// Decodes any heartbeat request body into an addressed message, or
/// reports the missing required field.
pub fn get_ble_message_from_proto(w: WireBleMessage) -> (r: Result<BleMessage, DecodeError>)
    ensures
        r is Ok <==> wire_ble_wf(w),
        r matches Ok(m) ==> ble_unwires(m, w),
        r matches Err(e) ==> e == DecodeError::MissingField,
{
    match w {
        WireBleMessage::HeartbeatRequest(x) => Ok(get_heartbeat_request_from_proto(x)),
        WireBleMessage::HeartbeatReply(x) => get_heartbeat_reply_from_proto(x),
    }
}

} // verus!
