//! Wire form of the protocol messages.
//!
//! These structs mirror, field for field, the request bodies of the RPC
//! surface between peers: message-typed fields travel as options, sum
//! types as an optional tagged payload, stop-sign metadata widened to
//! `u32`.  The codec in `codec` moves between this form and the internal
//! model; well-formedness here means every required field is present.

use vstd::prelude::*;

verus! {

/// Ballot as it travels on the wire.
#[derive(Clone, Copy, PartialEq, Eq, Structural, Debug)]
pub struct WireBallot {
    pub n: u32,
    pub priority: u64,
    pub pid: u64,
}

/// One log entry on the wire.
#[derive(Clone, PartialEq, Debug)]
pub struct WireEntry {
    pub id: u64,
    pub sql: String,
}

/// Entry list wrapper carried inside a sync item.
#[derive(Clone, PartialEq, Debug)]
pub struct WireEntries {
    pub entries: Vec<WireEntry>,
}

/// The tagged payload of a sync item.
#[derive(Clone, PartialEq, Debug)]
pub enum WireSyncItemKind {
    Entries(WireEntries),
    Snapshot(bool),
    NoneItem(bool),
}

/// Sync item on the wire; the payload tag is optional as transmitted.
#[derive(Clone, PartialEq, Debug)]
pub struct WireSyncItem {
    pub syncitem: Option<WireSyncItemKind>,
}

/// Stop sign on the wire; absent metadata travels as an empty list and
/// each metadata byte is widened to `u32`.
#[derive(Clone, PartialEq, Debug)]
pub struct WireStopSign {
    pub config_id: u32,
    pub nodes: Vec<u64>,
    pub metadata: Vec<u32>,
}

/// Trim request on the wire.
#[derive(Clone, Copy, PartialEq, Debug)]
pub struct WireTrim {
    pub trim: Option<u64>,
}

/// The tagged payload of a compaction request.
#[derive(Clone, Copy, PartialEq, Debug)]
pub enum WireCompactionKind {
    Trim(WireTrim),
    Snapshot(u64),
}

/// Prepare request body.
#[derive(Clone, Copy, PartialEq, Debug)]
pub struct WirePrepareReq {
    pub from: u64,
    pub to: u64,
}

/// Prepare body.
#[derive(Clone, Copy, PartialEq, Debug)]
pub struct WirePrepare {
    pub from: u64,
    pub to: u64,
    pub n: Option<WireBallot>,
    pub ld: u64,
    pub n_accepted: Option<WireBallot>,
    pub la: u64,
}

/// Promise body.
#[derive(Clone, PartialEq, Debug)]
pub struct WirePromise {
    pub from: u64,
    pub to: u64,
    pub n: Option<WireBallot>,
    pub n_accepted: Option<WireBallot>,
    pub sync_item: Option<WireSyncItem>,
    pub ld: u64,
    pub la: u64,
    pub stopsign: Option<WireStopSign>,
}

/// AcceptSync body.
#[derive(Clone, PartialEq, Debug)]
pub struct WireAcceptSync {
    pub from: u64,
    pub to: u64,
    pub n: Option<WireBallot>,
    pub sync_item: Option<WireSyncItem>,
    pub sync_idx: u64,
    pub decided_idx: u64,
    pub stopsign: Option<WireStopSign>,
}

/// FirstAccept body.
#[derive(Clone, PartialEq, Debug)]
pub struct WireFirstAccept {
    pub from: u64,
    pub to: u64,
    pub n: Option<WireBallot>,
    pub entries: Vec<WireEntry>,
}

/// AcceptDecide body.
#[derive(Clone, PartialEq, Debug)]
pub struct WireAcceptDecide {
    pub from: u64,
    pub to: u64,
    pub n: Option<WireBallot>,
    pub ld: u64,
    pub entries: Vec<WireEntry>,
}

/// Accepted body.
#[derive(Clone, Copy, PartialEq, Debug)]
pub struct WireAccepted {
    pub from: u64,
    pub to: u64,
    pub n: Option<WireBallot>,
    pub la: u64,
}

/// Decide body.
#[derive(Clone, Copy, PartialEq, Debug)]
pub struct WireDecide {
    pub from: u64,
    pub to: u64,
    pub n: Option<WireBallot>,
    pub ld: u64,
}

/// ProposalForward body.
#[derive(Clone, PartialEq, Debug)]
pub struct WireProposalForward {
    pub from: u64,
    pub to: u64,
    pub proposals: Vec<WireEntry>,
}

/// Compaction body.
#[derive(Clone, Copy, PartialEq, Debug)]
pub struct WireCompaction {
    pub from: u64,
    pub to: u64,
    pub compaction: Option<WireCompactionKind>,
}

/// ForwardCompaction body.
#[derive(Clone, Copy, PartialEq, Debug)]
pub struct WireForwardCompaction {
    pub from: u64,
    pub to: u64,
    pub compaction: Option<WireCompactionKind>,
}

/// AcceptStopSign body.
#[derive(Clone, PartialEq, Debug)]
pub struct WireAcceptStopSign {
    pub from: u64,
    pub to: u64,
    pub n: Option<WireBallot>,
    pub stopsign: Option<WireStopSign>,
}

/// AcceptedStopSign body.
#[derive(Clone, Copy, PartialEq, Debug)]
pub struct WireAcceptedStopSign {
    pub from: u64,
    pub to: u64,
    pub n: Option<WireBallot>,
}

/// DecideStopSign body.
#[derive(Clone, Copy, PartialEq, Debug)]
pub struct WireDecideStopSign {
    pub from: u64,
    pub to: u64,
    pub n: Option<WireBallot>,
}

/// Heartbeat request body.
#[derive(Clone, Copy, PartialEq, Debug)]
pub struct WireHeartbeatRequest {
    pub from: u64,
    pub to: u64,
    pub round: u32,
}

/// Heartbeat reply body.
#[derive(Clone, Copy, PartialEq, Debug)]
pub struct WireHeartbeatReply {
    pub from: u64,
    pub to: u64,
    pub round: u32,
    pub ballot: Option<WireBallot>,
    pub majority_connected: bool,
}

/// One request body per Paxos message kind: what the outbound path hands
/// to the RPC client, and what the inbound service receives.
#[derive(Clone, PartialEq, Debug)]
pub enum WirePaxosMessage {
    PrepareReq(WirePrepareReq),
    Prepare(WirePrepare),
    Promise(WirePromise),
    AcceptSync(WireAcceptSync),
    FirstAccept(WireFirstAccept),
    AcceptDecide(WireAcceptDecide),
    Accepted(WireAccepted),
    Decide(WireDecide),
    ProposalForward(WireProposalForward),
    Compaction(WireCompaction),
    ForwardCompaction(WireForwardCompaction),
    AcceptStopSign(WireAcceptStopSign),
    AcceptedStopSign(WireAcceptedStopSign),
    DecideStopSign(WireDecideStopSign),
}

/// One request body per heartbeat message kind.
#[derive(Clone, Copy, PartialEq, Debug)]
pub enum WireBleMessage {
    HeartbeatRequest(WireHeartbeatRequest),
    HeartbeatReply(WireHeartbeatReply),
}

/// A client query as received by the service.
#[derive(Clone, PartialEq, Debug)]
pub struct WireQuery {
    pub sql: String,
    pub consistency: i32,
}

/// One result row as returned to a client.
#[derive(Clone, PartialEq, Debug)]
pub struct WireQueryRow {
    pub values: Vec<String>,
}

/// The result set as returned to a client.
#[derive(Clone, PartialEq, Debug)]
pub struct WireQueryResults {
    pub rows: Vec<WireQueryRow>,
}

/// A sync item is well formed when its payload tag is present.
pub open spec fn wire_sync_item_wf(w: WireSyncItem) -> bool {
    w.syncitem is Some
}

/// Required fields of each request body: the fields the inbound service
/// cannot do without.  A body that fails this decodes to a protocol error.
pub open spec fn wire_paxos_wf(w: WirePaxosMessage) -> bool {
    match w {
        WirePaxosMessage::PrepareReq(_) => true,
        WirePaxosMessage::Prepare(x) => x.n is Some && x.n_accepted is Some,
        WirePaxosMessage::Promise(x) => {
            &&& x.n is Some
            &&& x.n_accepted is Some
            &&& (x.sync_item matches Some(s) ==> wire_sync_item_wf(s))
        },
        WirePaxosMessage::AcceptSync(x) => {
            &&& x.n is Some
            &&& x.sync_item matches Some(s) && wire_sync_item_wf(s)
        },
        WirePaxosMessage::FirstAccept(x) => x.n is Some,
        WirePaxosMessage::AcceptDecide(x) => x.n is Some,
        WirePaxosMessage::Accepted(x) => x.n is Some,
        WirePaxosMessage::Decide(x) => x.n is Some,
        WirePaxosMessage::ProposalForward(_) => true,
        WirePaxosMessage::Compaction(x) => x.compaction is Some,
        WirePaxosMessage::ForwardCompaction(x) => x.compaction is Some,
        WirePaxosMessage::AcceptStopSign(x) => x.n is Some && x.stopsign is Some,
        WirePaxosMessage::AcceptedStopSign(x) => x.n is Some,
        WirePaxosMessage::DecideStopSign(x) => x.n is Some,
    }
}

/// Required fields of each heartbeat body.
pub open spec fn wire_ble_wf(w: WireBleMessage) -> bool {
    match w {
        WireBleMessage::HeartbeatRequest(_) => true,
        WireBleMessage::HeartbeatReply(x) => x.ballot is Some,
    }
}

} // verus!
