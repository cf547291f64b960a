//! Internal model of the replication protocol.
//!
//! These are the values the node runtime works with: ballots, replicated
//! commands, the Paxos message family and the heartbeat message family of
//! ballot leader election.  The wire form that travels between peers lives
//! in `wire`; the codec between the two lives in `codec`.

use vstd::prelude::*;

verus! {

/// Protocol-wide ordered identifier used to sequence leaderships and
/// proposals.  Ordering is lexicographic on `(n, priority, pid)`.
#[derive(Clone, Copy, PartialEq, Eq, Structural, Debug, Hash)]
pub struct Ballot {
    pub n: u32,
    pub priority: u64,
    pub pid: u64,
}

/// Lexicographic order on ballots: first `n`, then `priority`, then `pid`.
pub open spec fn ballot_lt(a: Ballot, b: Ballot) -> bool {
    ||| a.n < b.n
    ||| (a.n == b.n && a.priority < b.priority)
    ||| (a.n == b.n && a.priority == b.priority && a.pid < b.pid)
}

/// The ballot packed into a single integer, `pid` in the low 64 bits,
/// `priority` in the next 64, `n` above them.
pub open spec fn ballot_rank(b: Ballot) -> int {
    b.n * 0x100000000000000000000000000000000 + b.priority * 0x10000000000000000 + b.pid
}

proof fn lemma_rank_strict(a: Ballot, b: Ballot)
    requires
        ballot_lt(a, b),
    ensures
        ballot_rank(a) < ballot_rank(b),
{
    let base: int = 0x10000000000000000;
    assert(a.priority * base + a.pid < base * base) by (nonlinear_arith)
        requires
            a.priority < base,
            a.pid < base,
    ;
    assert(b.priority * base >= 0) by (nonlinear_arith)
        requires
            b.priority >= 0,
            base >= 0,
    ;
    if a.n < b.n {
        assert(b.n * (base * base) >= a.n * (base * base) + base * base) by (nonlinear_arith)
            requires
                a.n < b.n,
                base > 0,
        ;
        assert(a.n * 0x100000000000000000000000000000000 == a.n * (base * base));
        assert(b.n * 0x100000000000000000000000000000000 == b.n * (base * base));
    } else if a.priority < b.priority {
        assert(b.priority * base >= a.priority * base + base) by (nonlinear_arith)
            requires
                a.priority < b.priority,
                base > 0,
        ;
    }
}

/// Packing a ballot into one integer is order preserving: the packed forms
/// compare exactly as the ballots do lexicographically.
pub proof fn lemma_ballot_rank_orders(a: Ballot, b: Ballot)
    ensures
        ballot_rank(a) < ballot_rank(b) <==> ballot_lt(a, b),
{
    if ballot_lt(a, b) {
        lemma_rank_strict(a, b);
    } else if ballot_lt(b, a) {
        lemma_rank_strict(b, a);
    } else {
        assert(a.n == b.n && a.priority == b.priority && a.pid == b.pid);
    }
}

/// Compares two ballots in the protocol order.
pub fn ballot_less(a: &Ballot, b: &Ballot) -> (r: bool)
    ensures
        r == ballot_lt(*a, *b),
{
    if a.n != b.n {
        a.n < b.n
    } else if a.priority != b.priority {
        a.priority < b.priority
    } else {
        a.pid < b.pid
    }
}

/// One replicated SQL statement plus its cluster-unique id.
#[derive(Clone, PartialEq, Debug)]
pub struct StoreCommand {
    pub id: u64,
    pub sql: String,
}

/// Two commands carry the same id and the same SQL text.
pub open spec fn cmd_eq(a: StoreCommand, b: StoreCommand) -> bool {
    a.id == b.id && a.sql@ == b.sql@
}

/// Pointwise `cmd_eq` over two command sequences.
pub open spec fn cmds_eq(a: Seq<StoreCommand>, b: Seq<StoreCommand>) -> bool {
    a.len() == b.len() && forall|i: int| 0 <= i < a.len() ==> cmd_eq(#[trigger] a[i], b[i])
}

/// Consistency level a client selects for a query.
#[derive(Clone, Copy, PartialEq, Eq, Structural, Debug)]
pub enum Consistency {
    /// The query goes through the replicated log; linearizable.
    Strong,
    /// The query reads the local engine directly and may be stale.
    RelaxedReads,
}

/// Payload that brings a follower up to date during Promise/AcceptSync.
/// Snapshots of this store are trivial: full state is rebuilt by
/// re-executing entries, so the snapshot variant carries no data.
#[derive(Clone, PartialEq, Debug)]
pub enum SyncItem {
    Entries(Vec<StoreCommand>),
    Snapshot,
    NoItem,
}

/// Two sync items are the same variant with equivalent contents.
pub open spec fn sync_eq(a: SyncItem, b: SyncItem) -> bool {
    match a {
        SyncItem::Entries(ea) => b matches SyncItem::Entries(eb) && cmds_eq(ea@, eb@),
        SyncItem::Snapshot => b is Snapshot,
        SyncItem::NoItem => b is NoItem,
    }
}

/// Reconfiguration marker closing the current configuration's log.
#[derive(Clone, PartialEq, Debug)]
pub struct StopSign {
    pub config_id: u32,
    pub nodes: Vec<u64>,
    pub metadata: Option<Vec<u8>>,
}

/// Two stop signs agree on configuration id, node set and metadata.
pub open spec fn stopsign_eq(a: StopSign, b: StopSign) -> bool {
    &&& a.config_id == b.config_id
    &&& a.nodes@ == b.nodes@
    &&& match a.metadata {
        Some(ma) => b.metadata matches Some(mb) && ma@ == mb@,
        None => b.metadata is None,
    }
}

/// `stopsign_eq` lifted over optional stop signs.
pub open spec fn opt_stopsign_eq(a: Option<StopSign>, b: Option<StopSign>) -> bool {
    match a {
        Some(sa) => b matches Some(sb) && stopsign_eq(sa, sb),
        None => b is None,
    }
}

/// Log compaction request: trim up to an index, or compact by snapshot.
#[derive(Clone, Copy, PartialEq, Debug)]
pub enum Compaction {
    Trim(Option<u64>),
    Snapshot(u64),
}

/// Prepare phase: a new leader asks a follower for its promise.
#[derive(Clone, Copy, PartialEq, Eq, Debug)]
pub struct Prepare {
    pub n: Ballot,
    pub ld: u64,
    pub n_accepted: Ballot,
    pub la: u64,
}

/// A follower's answer to Prepare, possibly carrying catch-up data.
#[derive(Clone, PartialEq, Debug)]
pub struct Promise {
    pub n: Ballot,
    pub n_accepted: Ballot,
    pub sync_item: Option<SyncItem>,
    pub ld: u64,
    pub la: u64,
    pub stopsign: Option<StopSign>,
}

/// Leader to follower: synchronise the log, then start accepting.
#[derive(Clone, PartialEq, Debug)]
pub struct AcceptSync {
    pub n: Ballot,
    pub sync_item: SyncItem,
    pub sync_idx: u64,
    pub decide_idx: u64,
    pub stopsign: Option<StopSign>,
}

/// The first accept a leader sends in its ballot.
#[derive(Clone, PartialEq, Debug)]
pub struct FirstAccept {
    pub n: Ballot,
    pub entries: Vec<StoreCommand>,
}

/// New entries to accept together with the current decided index.
#[derive(Clone, PartialEq, Debug)]
pub struct AcceptDecide {
    pub n: Ballot,
    pub ld: u64,
    pub entries: Vec<StoreCommand>,
}

/// A follower's acknowledgement of accepted entries up to `la`.
#[derive(Clone, Copy, PartialEq, Eq, Debug)]
pub struct Accepted {
    pub n: Ballot,
    pub la: u64,
}

/// The leader announces that entries up to `ld` are decided.
#[derive(Clone, Copy, PartialEq, Eq, Debug)]
pub struct Decide {
    pub n: Ballot,
    pub ld: u64,
}

/// The leader proposes a stop sign for acceptance.
#[derive(Clone, PartialEq, Debug)]
pub struct AcceptStopSign {
    pub n: Ballot,
    pub ss: StopSign,
}

/// A follower's acknowledgement of an accepted stop sign.
#[derive(Clone, Copy, PartialEq, Eq, Debug)]
pub struct AcceptedStopSign {
    pub n: Ballot,
}

/// The leader announces that the stop sign is decided.
#[derive(Clone, Copy, PartialEq, Eq, Debug)]
pub struct DecideStopSign {
    pub n: Ballot,
}

/// The Paxos message family of the consensus core.
#[derive(Clone, PartialEq, Debug)]
pub enum PaxosMsg {
    PrepareReq,
    Prepare(Prepare),
    Promise(Promise),
    AcceptSync(AcceptSync),
    FirstAccept(FirstAccept),
    AcceptDecide(AcceptDecide),
    Accepted(Accepted),
    Decide(Decide),
    ProposalForward(Vec<StoreCommand>),
    Compaction(Compaction),
    ForwardCompaction(Compaction),
    AcceptStopSign(AcceptStopSign),
    AcceptedStopSign(AcceptedStopSign),
    DecideStopSign(DecideStopSign),
}

/// Two Paxos payloads are the same variant with equivalent contents.
pub open spec fn paxos_msg_eq(a: PaxosMsg, b: PaxosMsg) -> bool {
    match a {
        PaxosMsg::PrepareReq => b is PrepareReq,
        PaxosMsg::Prepare(x) => b matches PaxosMsg::Prepare(y) && x == y,
        PaxosMsg::Promise(x) => {
            &&& b matches PaxosMsg::Promise(y)
            &&& x.n == y.n
            &&& x.n_accepted == y.n_accepted
            &&& match x.sync_item {
                Some(sa) => y.sync_item matches Some(sb) && sync_eq(sa, sb),
                None => y.sync_item is None,
            }
            &&& x.ld == y.ld
            &&& x.la == y.la
            &&& opt_stopsign_eq(x.stopsign, y.stopsign)
        },
        PaxosMsg::AcceptSync(x) => {
            &&& b matches PaxosMsg::AcceptSync(y)
            &&& x.n == y.n
            &&& sync_eq(x.sync_item, y.sync_item)
            &&& x.sync_idx == y.sync_idx
            &&& x.decide_idx == y.decide_idx
            &&& opt_stopsign_eq(x.stopsign, y.stopsign)
        },
        PaxosMsg::FirstAccept(x) => {
            &&& b matches PaxosMsg::FirstAccept(y)
            &&& x.n == y.n
            &&& cmds_eq(x.entries@, y.entries@)
        },
        PaxosMsg::AcceptDecide(x) => {
            &&& b matches PaxosMsg::AcceptDecide(y)
            &&& x.n == y.n
            &&& x.ld == y.ld
            &&& cmds_eq(x.entries@, y.entries@)
        },
        PaxosMsg::Accepted(x) => b matches PaxosMsg::Accepted(y) && x == y,
        PaxosMsg::Decide(x) => b matches PaxosMsg::Decide(y) && x == y,
        PaxosMsg::ProposalForward(x) => b matches PaxosMsg::ProposalForward(y) && cmds_eq(x@, y@),
        PaxosMsg::Compaction(x) => b matches PaxosMsg::Compaction(y) && x == y,
        PaxosMsg::ForwardCompaction(x) => b matches PaxosMsg::ForwardCompaction(y) && x == y,
        PaxosMsg::AcceptStopSign(x) => {
            &&& b matches PaxosMsg::AcceptStopSign(y)
            &&& x.n == y.n
            &&& stopsign_eq(x.ss, y.ss)
        },
        PaxosMsg::AcceptedStopSign(x) => b matches PaxosMsg::AcceptedStopSign(y) && x == y,
        PaxosMsg::DecideStopSign(x) => b matches PaxosMsg::DecideStopSign(y) && x == y,
    }
}

/// An addressed Paxos message between two nodes.
#[derive(Clone, PartialEq, Debug)]
pub struct Message {
    pub from: u64,
    pub to: u64,
    pub msg: PaxosMsg,
}

/// Two addressed messages agree on endpoints and payload.
pub open spec fn message_eq(a: Message, b: Message) -> bool {
    a.from == b.from && a.to == b.to && paxos_msg_eq(a.msg, b.msg)
}

/// A heartbeat round probe of ballot leader election.
#[derive(Clone, Copy, PartialEq, Eq, Debug)]
pub struct HeartbeatRequest {
    pub round: u32,
}

/// A heartbeat answer carrying the replier's current ballot.
#[derive(Clone, Copy, PartialEq, Eq, Debug)]
pub struct HeartbeatReply {
    pub round: u32,
    pub ballot: Ballot,
    pub majority_connected: bool,
}

/// The heartbeat message family of ballot leader election.
#[derive(Clone, Copy, PartialEq, Eq, Debug)]
pub enum HeartbeatMsg {
    Request(HeartbeatRequest),
    Reply(HeartbeatReply),
}

/// An addressed heartbeat message between two nodes.
#[derive(Clone, Copy, PartialEq, Eq, Debug)]
pub struct BleMessage {
    pub from: u64,
    pub to: u64,
    pub msg: HeartbeatMsg,
}

/// One result row: the engine's string rendering of each column.
#[derive(Clone, PartialEq, Debug)]
pub struct QueryRow {
    pub values: Vec<String>,
}

/// Rows returned to a client for one query.
#[derive(Clone, PartialEq, Debug)]
pub struct QueryResults {
    pub rows: Vec<QueryRow>,
}

/// Two rows render the same columns.
pub open spec fn row_eq(a: QueryRow, b: QueryRow) -> bool {
    a.values@.len() == b.values@.len() && forall|i: int|
        0 <= i < a.values@.len() ==> (#[trigger] a.values@[i])@ == b.values@[i]@
}

/// Two result sets hold the same rows in the same order.
pub open spec fn results_eq(a: QueryResults, b: QueryResults) -> bool {
    a.rows@.len() == b.rows@.len() && forall|i: int|
        0 <= i < a.rows@.len() ==> row_eq(#[trigger] a.rows@[i], b.rows@[i])
}

} // verus!
