use chiselstore::codec::{
    get_ballot_from_proto, get_compaction_from_proto, get_entries_from_proto,
    get_entry_from_proto, get_proto_ballot, get_proto_compaction, get_proto_entries,
    get_proto_entry, get_proto_stop_sign, get_proto_sync_item, get_stopsign_from_proto,
    get_syncitem_from_proto, DecodeError,
};
use chiselstore::message::{
    AcceptDecide, AcceptStopSign, AcceptSync, Accepted, AcceptedStopSign, Ballot, Compaction,
    Decide, DecideStopSign, FirstAccept, Message, PaxosMsg, Prepare, Promise, StopSign,
    StoreCommand, SyncItem,
};
use chiselstore::rpc::{get_message_from_proto, get_proto_message};
use chiselstore::wire::{WirePaxosMessage, WireStopSign, WireSyncItem};

fn ballot(n: u32, priority: u64, pid: u64) -> Ballot {
    Ballot { n, priority, pid }
}

fn cmd(id: u64, sql: &str) -> StoreCommand {
    StoreCommand { id, sql: String::from(sql) }
}

fn round_trip(msg: Message) -> Message {
    let wire = get_proto_message(msg);
    get_message_from_proto(wire).expect("a body built by the encoder decodes")
}

#[test]
fn ballot_round_trip() {
    let b = ballot(3, 7, 2);
    assert_eq!(get_ballot_from_proto(get_proto_ballot(b)), b);
}

#[test]
fn entry_round_trip() {
    let c = cmd(42, "INSERT INTO t VALUES(1,'a')");
    let back = get_entry_from_proto(get_proto_entry(c.clone()));
    assert_eq!(back, c);
}

#[test]
fn entries_round_trip_empty() {
    let cs: Vec<StoreCommand> = vec![];
    let back = get_entries_from_proto(&get_proto_entries(&cs));
    assert_eq!(back, cs);
}

#[test]
fn sync_item_round_trip_entries() {
    let s = SyncItem::Entries(vec![cmd(1, "CREATE TABLE t(k INTEGER PRIMARY KEY)"), cmd(2, "")]);
    let back = get_syncitem_from_proto(get_proto_sync_item(s.clone())).unwrap();
    assert_eq!(back, s);
}

#[test]
fn sync_item_round_trip_snapshot_and_none() {
    let s = SyncItem::Snapshot;
    assert_eq!(get_syncitem_from_proto(get_proto_sync_item(s.clone())).unwrap(), s);
    let s = SyncItem::NoItem;
    assert_eq!(get_syncitem_from_proto(get_proto_sync_item(s.clone())).unwrap(), s);
}

#[test]
fn sync_item_missing_tag_is_protocol_error() {
    let w = WireSyncItem { syncitem: None };
    assert_eq!(get_syncitem_from_proto(w), Err(DecodeError::MissingField));
}

#[test]
fn stopsign_round_trip_with_metadata() {
    let ss = StopSign { config_id: 5, nodes: vec![1, 2, 3], metadata: Some(vec![0, 9, 255]) };
    let back = get_stopsign_from_proto(get_proto_stop_sign(ss.clone()));
    assert_eq!(back, ss);
}

#[test]
fn stopsign_absent_metadata_comes_back_empty() {
    let ss = StopSign { config_id: 1, nodes: vec![1], metadata: None };
    let back = get_stopsign_from_proto(get_proto_stop_sign(ss));
    assert_eq!(back.metadata, Some(vec![]));
}

#[test]
fn stopsign_wire_metadata_truncates_to_low_bits() {
    let w = WireStopSign { config_id: 9, nodes: vec![1, 2], metadata: vec![255, 256, 511, 1000] };
    let back = get_stopsign_from_proto(w);
    assert_eq!(back.metadata, Some(vec![255, 0, 255, 232]));
}

#[test]
fn compaction_round_trip() {
    for c in [Compaction::Trim(None), Compaction::Trim(Some(11)), Compaction::Snapshot(4)] {
        assert_eq!(get_compaction_from_proto(get_proto_compaction(c)), c);
    }
}

#[test]
fn prepare_req_message_round_trip() {
    let m = Message { from: 1, to: 2, msg: PaxosMsg::PrepareReq };
    assert_eq!(round_trip(m.clone()), m);
}

#[test]
fn prepare_message_round_trip() {
    let m = Message {
        from: 1,
        to: 3,
        msg: PaxosMsg::Prepare(Prepare {
            n: ballot(2, 0, 1),
            ld: 7,
            n_accepted: ballot(1, 0, 3),
            la: 9,
        }),
    };
    assert_eq!(round_trip(m.clone()), m);
}

#[test]
fn promise_message_round_trip_full() {
    let m = Message {
        from: 2,
        to: 1,
        msg: PaxosMsg::Promise(Promise {
            n: ballot(2, 0, 1),
            n_accepted: ballot(1, 0, 2),
            sync_item: Some(SyncItem::Entries(vec![cmd(4, "SELECT 1")])),
            ld: 3,
            la: 5,
            stopsign: Some(StopSign { config_id: 2, nodes: vec![1, 2, 3], metadata: Some(vec![8]) }),
        }),
    };
    assert_eq!(round_trip(m.clone()), m);
}

#[test]
fn promise_message_round_trip_absent_optionals() {
    let m = Message {
        from: 2,
        to: 1,
        msg: PaxosMsg::Promise(Promise {
            n: ballot(2, 0, 1),
            n_accepted: ballot(0, 0, 0),
            sync_item: None,
            ld: 0,
            la: 0,
            stopsign: None,
        }),
    };
    assert_eq!(round_trip(m.clone()), m);
}

#[test]
fn accept_sync_message_round_trip() {
    let m = Message {
        from: 1,
        to: 2,
        msg: PaxosMsg::AcceptSync(AcceptSync {
            n: ballot(3, 1, 1),
            sync_item: SyncItem::Entries(vec![cmd(1, "a"), cmd(2, "b")]),
            sync_idx: 4,
            decide_idx: 2,
            stopsign: None,
        }),
    };
    assert_eq!(round_trip(m.clone()), m);
}

#[test]
fn first_accept_message_round_trip() {
    let m = Message {
        from: 1,
        to: 2,
        msg: PaxosMsg::FirstAccept(FirstAccept { n: ballot(1, 0, 1), entries: vec![] }),
    };
    assert_eq!(round_trip(m.clone()), m);
}

#[test]
fn accept_decide_message_round_trip() {
    let m = Message {
        from: 1,
        to: 3,
        msg: PaxosMsg::AcceptDecide(AcceptDecide {
            n: ballot(1, 0, 1),
            ld: 6,
            entries: vec![cmd(9, "INSERT INTO t VALUES(7)")],
        }),
    };
    assert_eq!(round_trip(m.clone()), m);
}

#[test]
fn accepted_message_round_trip() {
    let m = Message {
        from: 3,
        to: 1,
        msg: PaxosMsg::Accepted(Accepted { n: ballot(1, 0, 1), la: 6 }),
    };
    assert_eq!(round_trip(m.clone()), m);
}

#[test]
fn decide_message_round_trip() {
    let m = Message { from: 1, to: 3, msg: PaxosMsg::Decide(Decide { n: ballot(1, 0, 1), ld: 6 }) };
    assert_eq!(round_trip(m.clone()), m);
}

#[test]
fn proposal_forward_message_round_trip() {
    let m = Message {
        from: 3,
        to: 1,
        msg: PaxosMsg::ProposalForward(vec![cmd(5, "INSERT INTO t VALUES(7)")]),
    };
    assert_eq!(round_trip(m.clone()), m);
}

#[test]
fn compaction_message_round_trip() {
    let m = Message { from: 1, to: 2, msg: PaxosMsg::Compaction(Compaction::Trim(Some(3))) };
    assert_eq!(round_trip(m.clone()), m);
    let m = Message { from: 1, to: 2, msg: PaxosMsg::ForwardCompaction(Compaction::Snapshot(8)) };
    assert_eq!(round_trip(m.clone()), m);
}

#[test]
fn stop_sign_messages_round_trip() {
    let ss = StopSign { config_id: 7, nodes: vec![1, 2, 3, 4], metadata: Some(vec![1, 2]) };
    let m = Message {
        from: 1,
        to: 2,
        msg: PaxosMsg::AcceptStopSign(AcceptStopSign { n: ballot(4, 0, 1), ss }),
    };
    assert_eq!(round_trip(m.clone()), m);
    let m = Message {
        from: 2,
        to: 1,
        msg: PaxosMsg::AcceptedStopSign(AcceptedStopSign { n: ballot(4, 0, 1) }),
    };
    assert_eq!(round_trip(m.clone()), m);
    let m = Message {
        from: 1,
        to: 2,
        msg: PaxosMsg::DecideStopSign(DecideStopSign { n: ballot(4, 0, 1) }),
    };
    assert_eq!(round_trip(m.clone()), m);
}

#[test]
fn prepare_missing_ballot_is_protocol_error() {
    let m = Message {
        from: 1,
        to: 3,
        msg: PaxosMsg::Prepare(Prepare {
            n: ballot(2, 0, 1),
            ld: 7,
            n_accepted: ballot(1, 0, 3),
            la: 9,
        }),
    };
    let wire = get_proto_message(m);
    if let WirePaxosMessage::Prepare(mut body) = wire {
        body.n = None;
        let r = get_message_from_proto(WirePaxosMessage::Prepare(body));
        assert_eq!(r, Err(DecodeError::MissingField));
    } else {
        panic!("encoder picked the wrong request body");
    }
}
