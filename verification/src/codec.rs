//! Codec between the internal protocol model and its wire form.
//!
//! Encoding (`get_proto_*`) is what the outbound transport does to a
//! message before handing it to the RPC client; decoding
//! (`get_*_from_proto`) is what the inbound service does to a request
//! body before handing the message to the node runtime.  A request body
//! with a missing required field decodes to a protocol error.  The
//! contracts are stated over the `*_wires` relations: `x_wires(w, m)`
//! says that `w` is the wire form of `m`, `x_unwires(m, w)` that `m` is
//! what `w` decodes to.

use vstd::prelude::*;

use crate::message::{
    cmd_eq, cmds_eq, Ballot, Compaction, StopSign, StoreCommand, SyncItem,
};
use crate::wire::{
    wire_sync_item_wf, WireBallot, WireCompactionKind, WireEntries, WireEntry, WireStopSign,
    WireSyncItem, WireSyncItemKind, WireTrim,
};

verus! {

/// Error of the inbound decode path: the request body lacks a field the
/// protocol requires.  The sender treats it as a transport error.
#[derive(Clone, Copy, PartialEq, Eq, Structural, Debug)]
pub enum DecodeError {
    MissingField,
}

/// `w` carries exactly the fields of ballot `b`.
pub open spec fn ballot_wires(w: WireBallot, b: Ballot) -> bool {
    w.n == b.n && w.priority == b.priority && w.pid == b.pid
}

/// `w` carries exactly the id and SQL text of command `c`.
pub open spec fn entry_wires(w: WireEntry, c: StoreCommand) -> bool {
    w.id == c.id && w.sql@ == c.sql@
}

/// Pointwise `entry_wires` over two sequences.
pub open spec fn entries_wire(ws: Seq<WireEntry>, cs: Seq<StoreCommand>) -> bool {
    ws.len() == cs.len() && forall|i: int| 0 <= i < cs.len() ==> entry_wires(#[trigger] ws[i], cs[i])
}

/// `w` is the wire form of sync item `s`.
pub open spec fn sync_item_wires(w: WireSyncItem, s: SyncItem) -> bool {
    match s {
        SyncItem::Entries(es) => {
            &&& w.syncitem matches Some(WireSyncItemKind::Entries(we))
            &&& entries_wire(we.entries@, es@)
        },
        SyncItem::Snapshot => w.syncitem matches Some(WireSyncItemKind::Snapshot(b)) && b,
        SyncItem::NoItem => w.syncitem matches Some(WireSyncItemKind::NoneItem(b)) && b,
    }
}

/// `s` is what wire sync item `w` decodes to.  Any snapshot payload
/// decodes to the trivial snapshot; an absent tag decodes to nothing.
pub open spec fn sync_item_unwires(s: SyncItem, w: WireSyncItem) -> bool {
    match w.syncitem {
        Some(WireSyncItemKind::Entries(we)) => {
            &&& s matches SyncItem::Entries(es)
            &&& entries_wire(we.entries@, es@)
        },
        Some(WireSyncItemKind::Snapshot(_)) => s is Snapshot,
        Some(WireSyncItemKind::NoneItem(_)) => s is NoItem,
        None => false,
    }
}

/// `w` is the wire form of stop sign `ss`: metadata bytes are widened to
/// `u32`, absent metadata travels as the empty list.
pub open spec fn stopsign_wires(w: WireStopSign, ss: StopSign) -> bool {
    &&& w.config_id == ss.config_id
    &&& w.nodes@ == ss.nodes@
    &&& match ss.metadata {
        Some(md) => w.metadata@.len() == md@.len() && forall|i: int|
            0 <= i < md@.len() ==> #[trigger] w.metadata@[i] == md@[i] as u32,
        None => w.metadata@.len() == 0,
    }
}

/// `ss` is what wire stop sign `w` decodes to: metadata is always taken
/// as present, each value truncated to its low eight bits.
pub open spec fn stopsign_unwires(ss: StopSign, w: WireStopSign) -> bool {
    &&& ss.config_id == w.config_id
    &&& ss.nodes@ == w.nodes@
    &&& ss.metadata matches Some(md) && md@.len() == w.metadata@.len() && forall|i: int|
        0 <= i < md@.len() ==> #[trigger] md@[i] == w.metadata@[i] as u8
}

/// `w` carries exactly compaction request `c`; exact in both directions.
pub open spec fn compaction_wires(w: WireCompactionKind, c: Compaction) -> bool {
    match c {
        Compaction::Trim(t) => w matches WireCompactionKind::Trim(wt) && wt.trim == t,
        Compaction::Snapshot(s) => w matches WireCompactionKind::Snapshot(x) && x == s,
    }
}

/// Encodes a ballot for the wire.
pub fn get_proto_ballot(ballot: Ballot) -> (r: WireBallot)
    ensures
        ballot_wires(r, ballot),
{
    WireBallot { n: ballot.n, priority: ballot.priority, pid: ballot.pid }
}

/// Decodes a ballot from the wire.
pub fn get_ballot_from_proto(proto_ballot: WireBallot) -> (r: Ballot)
    ensures
        ballot_wires(proto_ballot, r),
{
    Ballot { n: proto_ballot.n, priority: proto_ballot.priority, pid: proto_ballot.pid }
}

/// Encodes one command for the wire.
pub fn get_proto_entry(cmd: StoreCommand) -> (r: WireEntry)
    ensures
        entry_wires(r, cmd),
{
    WireEntry { id: cmd.id, sql: cmd.sql }
}

/// Decodes one command from the wire.
pub fn get_entry_from_proto(proto_entry: WireEntry) -> (r: StoreCommand)
    ensures
        entry_wires(proto_entry, r),
{
    StoreCommand { id: proto_entry.id, sql: proto_entry.sql }
}

/// Encodes a command list for the wire.
pub fn get_proto_entries(entries: &Vec<StoreCommand>) -> (r: Vec<WireEntry>)
    ensures
        entries_wire(r@, entries@),
{
    let mut out: Vec<WireEntry> = Vec::new();
    let mut i: usize = 0;
    while i < entries.len()
        invariant
            i <= entries@.len(),
            out@.len() == i,
            forall|j: int| 0 <= j < i ==> entry_wires(#[trigger] out@[j], entries@[j]),
        decreases entries@.len() - i,
    {
        let e = &entries[i];
        out.push(get_proto_entry(StoreCommand { id: e.id, sql: e.sql.clone() }));
        i = i + 1;
    }
    out
}

/// Decodes a command list from the wire.
pub fn get_entries_from_proto(entries: &Vec<WireEntry>) -> (r: Vec<StoreCommand>)
    ensures
        entries_wire(entries@, r@),
{
    let mut out: Vec<StoreCommand> = Vec::new();
    let mut i: usize = 0;
    while i < entries.len()
        invariant
            i <= entries@.len(),
            out@.len() == i,
            forall|j: int| 0 <= j < i ==> entry_wires(entries@[j], #[trigger] out@[j]),
        decreases entries@.len() - i,
    {
        let e = &entries[i];
        out.push(get_entry_from_proto(WireEntry { id: e.id, sql: e.sql.clone() }));
        i = i + 1;
    }
    out
}

/// Encodes a sync item for the wire.
pub fn get_proto_sync_item(syncitem: SyncItem) -> (r: WireSyncItem)
    ensures
        sync_item_wires(r, syncitem),
        wire_sync_item_wf(r),
{
    match syncitem {
        SyncItem::Entries(entries) => WireSyncItem {
            syncitem: Some(
                WireSyncItemKind::Entries(WireEntries { entries: get_proto_entries(&entries) }),
            ),
        },
        SyncItem::Snapshot => WireSyncItem { syncitem: Some(WireSyncItemKind::Snapshot(true)) },
        SyncItem::NoItem => WireSyncItem { syncitem: Some(WireSyncItemKind::NoneItem(true)) },
    }
}

/// Decodes a sync item from the wire; an absent payload tag is a
/// protocol error.
pub fn get_syncitem_from_proto(syncitem: WireSyncItem) -> (r: Result<SyncItem, DecodeError>)
    ensures
        r is Ok <==> wire_sync_item_wf(syncitem),
        r matches Ok(s) ==> sync_item_unwires(s, syncitem),
        r matches Err(e) ==> e == DecodeError::MissingField,
{
    match syncitem.syncitem {
        Some(WireSyncItemKind::Entries(entries)) => Ok(
            SyncItem::Entries(get_entries_from_proto(&entries.entries)),
        ),
        Some(WireSyncItemKind::Snapshot(_)) => Ok(SyncItem::Snapshot),
        Some(WireSyncItemKind::NoneItem(_)) => Ok(SyncItem::NoItem),
        None => Err(DecodeError::MissingField),
    }
}

/// Encodes a stop sign for the wire: metadata bytes widen to `u32`,
/// absent metadata becomes the empty list.
pub fn get_proto_stop_sign(stopsign: StopSign) -> (r: WireStopSign)
    ensures
        stopsign_wires(r, stopsign),
{
    let config_id = stopsign.config_id;
    let nodes = stopsign.nodes;
    let metadata = match stopsign.metadata {
        Some(meta) => {
            let mut widened: Vec<u32> = Vec::new();
            let mut i: usize = 0;
            while i < meta.len()
                invariant
                    i <= meta@.len(),
                    widened@.len() == i,
                    forall|j: int| 0 <= j < i ==> #[trigger] widened@[j] == meta@[j] as u32,
                decreases meta@.len() - i,
            {
                widened.push(meta[i] as u32);
                i = i + 1;
            }
            widened
        },
        None => Vec::new(),
    };
    WireStopSign { config_id, nodes, metadata }
}

/// Decodes a stop sign from the wire.  Metadata always comes back
/// present; a value outside a byte's range keeps only its low eight
/// bits, as `lemma_widened_byte_is_low_bits` states.
pub fn get_stopsign_from_proto(stopsign: WireStopSign) -> (r: StopSign)
    ensures
        stopsign_unwires(r, stopsign),
{
    let config_id = stopsign.config_id;
    let nodes = stopsign.nodes;
    let mut narrowed: Vec<u8> = Vec::new();
    let mut i: usize = 0;
    while i < stopsign.metadata.len()
        invariant
            i <= stopsign.metadata@.len(),
            narrowed@.len() == i,
            forall|j: int| 0 <= j < i ==> #[trigger] narrowed@[j] == stopsign.metadata@[j] as u8,
        decreases stopsign.metadata@.len() - i,
    {
        narrowed.push(stopsign.metadata[i] as u8);
        i = i + 1;
    }
    StopSign { config_id, nodes, metadata: Some(narrowed) }
}

/// Narrowing a wire metadata value to a byte keeps exactly its low
/// eight bits.
pub proof fn lemma_widened_byte_is_low_bits(x: u32)
    ensures
        (x as u8) as u32 == x & 0xff,
{
    assert((x as u8) as u32 == x & 0xff) by (bit_vector);
}

/// Encodes a compaction request for the wire.
pub fn get_proto_compaction(compaction: Compaction) -> (r: WireCompactionKind)
    ensures
        compaction_wires(r, compaction),
{
    match compaction {
        Compaction::Trim(ent) => WireCompactionKind::Trim(WireTrim { trim: ent }),
        Compaction::Snapshot(snp) => WireCompactionKind::Snapshot(snp),
    }
}

/// Decodes a compaction request from the wire.
pub fn get_compaction_from_proto(compaction: WireCompactionKind) -> (r: Compaction)
    ensures
        compaction_wires(compaction, r),
{
    match compaction {
        WireCompactionKind::Trim(trim) => Compaction::Trim(trim.trim),
        WireCompactionKind::Snapshot(snp) => Compaction::Snapshot(snp),
    }
}

} // verus!
