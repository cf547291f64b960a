use chiselstore::message::{
    ballot_less, Ballot, BleMessage, Consistency, HeartbeatMsg, HeartbeatReply, HeartbeatRequest,
    QueryResults, QueryRow,
};
use chiselstore::pool::{ConnectionPool, Connections};
use chiselstore::rpc::{
    get_ble_message_from_proto, get_consistency_from_proto, get_proto_ble_message,
    get_proto_query_results, get_query_from_proto,
};
use chiselstore::wire::{WireBleMessage, WireQuery};

#[test]
fn heartbeat_request_round_trip() {
    let m = BleMessage { from: 1, to: 2, msg: HeartbeatMsg::Request(HeartbeatRequest { round: 5 }) };
    let back = get_ble_message_from_proto(get_proto_ble_message(m)).unwrap();
    assert_eq!(back, m);
}

#[test]
fn heartbeat_reply_round_trip() {
    let m = BleMessage {
        from: 2,
        to: 1,
        msg: HeartbeatMsg::Reply(HeartbeatReply {
            round: 5,
            ballot: Ballot { n: 3, priority: 1, pid: 2 },
            majority_connected: true,
        }),
    };
    let back = get_ble_message_from_proto(get_proto_ble_message(m)).unwrap();
    assert_eq!(back, m);
}

#[test]
fn heartbeat_reply_missing_ballot_is_protocol_error() {
    let m = BleMessage {
        from: 2,
        to: 1,
        msg: HeartbeatMsg::Reply(HeartbeatReply {
            round: 1,
            ballot: Ballot { n: 1, priority: 0, pid: 2 },
            majority_connected: false,
        }),
    };
    if let WireBleMessage::HeartbeatReply(mut body) = get_proto_ble_message(m) {
        body.ballot = None;
        assert!(get_ble_message_from_proto(WireBleMessage::HeartbeatReply(body)).is_err());
    } else {
        panic!("encoder picked the wrong request body");
    }
}

#[test]
fn ballot_order_is_lexicographic() {
    let b = |n: u32, priority: u64, pid: u64| Ballot { n, priority, pid };
    assert!(ballot_less(&b(1, 9, 9), &b(2, 0, 0)));
    assert!(ballot_less(&b(1, 1, 9), &b(1, 2, 0)));
    assert!(ballot_less(&b(1, 1, 1), &b(1, 1, 2)));
    assert!(!ballot_less(&b(1, 1, 2), &b(1, 1, 2)));
    assert!(!ballot_less(&b(2, 0, 0), &b(1, 9, 9)));
}

#[test]
fn known_consistency_values_decode() {
    assert_eq!(get_consistency_from_proto(0), Consistency::Strong);
    assert_eq!(get_consistency_from_proto(1), Consistency::RelaxedReads);
}

#[test]
fn unknown_consistency_defaults_to_strong() {
    assert_eq!(get_consistency_from_proto(2), Consistency::Strong);
    assert_eq!(get_consistency_from_proto(-1), Consistency::Strong);
    assert_eq!(get_consistency_from_proto(i32::MAX), Consistency::Strong);
}

#[test]
fn query_decodes_sql_and_consistency() {
    let q = WireQuery { sql: String::from("SELECT v FROM t WHERE k=1"), consistency: 7 };
    let (sql, consistency) = get_query_from_proto(q);
    assert_eq!(sql, "SELECT v FROM t WHERE k=1");
    assert_eq!(consistency, Consistency::Strong);
}

#[test]
fn query_results_encode_rows_in_order() {
    let results = QueryResults {
        rows: vec![
            QueryRow { values: vec![String::from("a"), String::from("NULL")] },
            QueryRow { values: vec![] },
        ],
    };
    let wire = get_proto_query_results(&results);
    assert_eq!(wire.rows.len(), 2);
    assert_eq!(wire.rows[0].values, vec![String::from("a"), String::from("NULL")]);
    assert!(wire.rows[1].values.is_empty());
}

#[test]
fn pool_borrow_on_empty_asks_for_fresh_connection() {
    let mut pool = ConnectionPool::new();
    assert_eq!(pool.connection(), None);
}

#[test]
fn pool_is_fifo() {
    let mut pool = ConnectionPool::new();
    pool.replenish(10);
    pool.replenish(11);
    assert_eq!(pool.connection(), Some(10));
    assert_eq!(pool.connection(), Some(11));
    assert_eq!(pool.connection(), None);
}

#[test]
fn connections_keep_peers_apart() {
    let mut conns = Connections::new();
    assert_eq!(conns.checkout(1), None);
    conns.checkin(1, 100);
    conns.checkin(2, 200);
    assert_eq!(conns.checkout(2), Some(200));
    assert_eq!(conns.checkout(2), None);
    assert_eq!(conns.checkout(1), Some(100));
}

#[test]
fn connections_pool_is_bounded_per_peer() {
    let mut conns = Connections::new();
    for handle in 0..20 {
        conns.checkin(7, handle);
    }
    for handle in 0..16 {
        assert_eq!(conns.checkout(7), Some(handle));
    }
    assert_eq!(conns.checkout(7), None);
}

#[test]
fn pool_at_capacity_discards_returns_without_error() {
    let mut pool = ConnectionPool::new();
    for handle in 0..16 {
        pool.replenish(handle);
    }
    pool.replenish(99);
    for handle in 0..16 {
        assert_eq!(pool.connection(), Some(handle));
    }
    assert_eq!(pool.connection(), None);
}
