use std::sync::atomic::{AtomicUsize, Ordering};
use std::sync::Arc;
use std::time::Duration;

use indradb_proto::bulk::BulkFeed;
use indradb_proto::convert::{
    bool_from_reply, count_from_reply, edge_list_from_replies, id_from_reply, unit_from_reply,
    vertex_list_from_replies, vertex_properties_from_reply,
};
use indradb_proto::error::{ClientError, ConversionError};
use indradb_proto::messages::{Inbound, RequestVariant, ResponseVariant, TransactionResponse};
use indradb_proto::model::{BulkInsertItem, Edge, EdgeDirection, EdgeKey, NamedProperty, Vertex, VertexProperties, VertexQuery};
use indradb_proto::transaction::{Reply, Transaction};
use indradb_proto::wire::{
    decode_edge_key, decode_uuid, decode_vertex, encode_edge_key, encode_uuid, encode_vertex, WireEdge,
    WireVertex, WireVertexProperties,
};

fn reply(id: u32, r: ResponseVariant) -> Inbound {
    Inbound::Message(TransactionResponse { request_id: id, response: Some(r) })
}

fn vertex(id: u128, t: &str) -> Vertex {
    Vertex { id, t: t.to_string() }
}

#[test]
fn scenario_create_get_and_desynchronised_count() {
    let mut t = Transaction::new();

    let v = vertex(0x1234, "person");
    let req = t.create_vertex(&v);
    assert_eq!(req.request_id, 0);
    let (res, _) = t.finish(vec![reply(0, ResponseVariant::Bool(true))]);
    let created = match res {
        Ok(Reply::Single(r)) => bool_from_reply(r).map_err(ClientError::from),
        Ok(Reply::Multi(_)) => panic!("shape"),
        Err(e) => Err(e),
    };
    assert_eq!(created, Ok(true));

    let a = vertex(1, "a");
    let b = vertex(2, "b");
    let req = t.get_vertices(VertexQuery::Range { start_id: None, limit: 10, t: None });
    assert_eq!(req.request_id, 1);
    let (res, n) = t.finish(vec![
        reply(1, ResponseVariant::Vertex(encode_vertex(&a))),
        reply(1, ResponseVariant::Vertex(encode_vertex(&b))),
        reply(1, ResponseVariant::Empty),
    ]);
    assert_eq!(n, 3);
    let vertices = match res {
        Ok(Reply::Multi(values)) => vertex_list_from_replies(values),
        _ => panic!("shape"),
    };
    assert_eq!(vertices, Ok(vec![a, b]));

    let req = t.get_edge_count(0x1234, Some(&"likes".to_string()), EdgeDirection::Outbound);
    assert_eq!(req.request_id, 2);
    let (res, _) = t.finish(vec![reply(3, ResponseVariant::Count(5))]);
    assert!(matches!(res, Err(ClientError::UnexpectedResponseId { expected: 2, actual: 3 })));
}

#[test]
fn create_vertex_round_trip_follows_canned_reply() {
    let v = vertex(0xfeed_beef_0000_0000_0000_0000_0000_0001, "thing");
    for canned in [true, false] {
        let mut t = Transaction::new();
        let req = t.create_vertex(&v);
        match req.request {
            RequestVariant::CreateVertex(w) => assert_eq!(decode_vertex(w), Ok(v.clone())),
            other => panic!("unexpected {:?}", other),
        }
        let (_, res, _) = t.await_single(RequestVariant::GetVertexCount, vec![reply(1, ResponseVariant::Bool(canned))]);
        assert_eq!(bool_from_reply(res.unwrap()), Ok(canned));
    }
}

#[test]
fn uuid_bytes_are_big_endian() {
    let b = encode_uuid(1);
    let mut expected = vec![0u8; 15];
    expected.push(1);
    assert_eq!(b, expected);
    let b = encode_uuid(0x0102_0304_0506_0708_090a_0b0c_0d0e_0f10);
    assert_eq!(b, (1u8..=16).collect::<Vec<u8>>());
    assert_eq!(decode_uuid(&b), Ok(0x0102_0304_0506_0708_090a_0b0c_0d0e_0f10));
}

#[test]
fn uuid_of_wrong_length_is_refused() {
    assert_eq!(decode_uuid(&vec![0u8; 15]), Err(ConversionError::InvalidUuid { len: 15 }));
    assert_eq!(decode_uuid(&vec![]), Err(ConversionError::InvalidUuid { len: 0 }));
    let w = WireVertex { id: vec![1, 2, 3], t: "x".to_string() };
    assert_eq!(decode_vertex(w), Err(ConversionError::InvalidUuid { len: 3 }));
}

#[test]
fn edge_key_round_trip() {
    let k = EdgeKey { outbound_id: 5, t: "likes".to_string(), inbound_id: u128::MAX };
    assert_eq!(decode_edge_key(encode_edge_key(&k)), Ok(k));
}

#[test]
fn replies_of_other_shape_are_refused() {
    assert_eq!(bool_from_reply(ResponseVariant::Count(1)), Err(ConversionError::UnexpectedResponseType));
    assert_eq!(count_from_reply(ResponseVariant::Bool(true)), Err(ConversionError::UnexpectedResponseType));
    assert_eq!(unit_from_reply(ResponseVariant::Count(0)), Err(ConversionError::UnexpectedResponseType));
    assert_eq!(unit_from_reply(ResponseVariant::Empty), Ok(()));
    assert_eq!(count_from_reply(ResponseVariant::Count(42)), Ok(42));
    assert_eq!(id_from_reply(ResponseVariant::Id(encode_uuid(77))), Ok(77));
    assert_eq!(id_from_reply(ResponseVariant::Id(vec![1])), Err(ConversionError::InvalidUuid { len: 1 }));
}

#[test]
fn list_conversion_stops_at_first_failure() {
    let good = vertex(9, "v");
    let values = vec![
        ResponseVariant::Vertex(encode_vertex(&good)),
        ResponseVariant::Count(1),
        ResponseVariant::Vertex(WireVertex { id: vec![], t: "v".to_string() }),
    ];
    assert_eq!(vertex_list_from_replies(values), Err(ConversionError::UnexpectedResponseType));
    assert_eq!(vertex_list_from_replies(vec![]), Ok(vec![]));
    let e = WireEdge { key: encode_edge_key(&EdgeKey { outbound_id: 1, t: "e".to_string(), inbound_id: 2 }), created_datetime: 17 };
    assert_eq!(
        edge_list_from_replies(vec![ResponseVariant::Edge(e)]),
        Ok(vec![Edge { key: EdgeKey { outbound_id: 1, t: "e".to_string(), inbound_id: 2 }, created_datetime: 17 }])
    );
}

#[test]
fn vertex_properties_keep_their_props() {
    let props = vec![NamedProperty { name: "age".to_string(), value: "3".to_string() }];
    let w = WireVertexProperties { vertex: encode_vertex(&vertex(3, "p")), props: props.clone() };
    assert_eq!(
        vertex_properties_from_reply(ResponseVariant::VertexProperties(w)),
        Ok(VertexProperties { vertex: vertex(3, "p"), props })
    );
}

fn items(n: u128) -> Vec<BulkInsertItem> {
    (0..n).map(|i| BulkInsertItem::Vertex(vertex(i, "v"))).collect()
}

#[test]
fn bulk_feed_hands_out_every_item_in_order() {
    let mut feed = BulkFeed::new(items(10));
    let mut out = Vec::new();
    while let Some(item) = feed.next_item() {
        out.push(item);
    }
    assert_eq!(out, items(10));
    assert!(feed.is_done());
}

#[test]
fn bulk_feed_stops_when_receiver_is_gone() {
    let mut feed = BulkFeed::new(items(10));
    assert_eq!(feed.next_item(), Some(BulkInsertItem::Vertex(vertex(0, "v"))));
    assert_eq!(feed.next_item(), Some(BulkInsertItem::Vertex(vertex(1, "v"))));
    assert!(!feed.is_done());
    feed.on_send_failed();
    assert!(feed.is_done());
    assert_eq!(feed.next_item(), None);
}

#[test]
fn bulk_feed_of_nothing_is_done() {
    let mut feed = BulkFeed::new(vec![]);
    assert!(feed.is_done());
    assert_eq!(feed.next_item(), None);
}

#[test]
fn bulk_feed_waits_on_a_full_queue_and_ends_when_receiver_drops() {
    let rt = tokio::runtime::Builder::new_current_thread().enable_time().build().unwrap();
    rt.block_on(async {
        let (tx, mut rx) = tokio::sync::mpsc::channel(2);
        let sent = Arc::new(AtomicUsize::new(0));
        let counter = sent.clone();
        let task = tokio::spawn(async move {
            let mut feed = BulkFeed::new(items(10));
            while let Some(item) = feed.next_item() {
                if tx.send(item).await.is_err() {
                    feed.on_send_failed();
                    break;
                }
                counter.fetch_add(1, Ordering::SeqCst);
            }
            feed.is_done()
        });
        assert_eq!(rx.recv().await, Some(BulkInsertItem::Vertex(vertex(0, "v"))));
        assert_eq!(rx.recv().await, Some(BulkInsertItem::Vertex(vertex(1, "v"))));
        tokio::time::sleep(Duration::from_millis(50)).await;
        // two taken, two queued, the fifth waits for room
        assert_eq!(sent.load(Ordering::SeqCst), 4);
        assert_eq!(rx.recv().await, Some(BulkInsertItem::Vertex(vertex(2, "v"))));
        drop(rx);
        let done = tokio::time::timeout(Duration::from_secs(5), task).await.unwrap().unwrap();
        assert!(done);
    });
}

#[test]
fn abandoned_call_leaves_stale_replies_detectable() {
    let mut t = Transaction::new();
    t.get_vertex_count();
    t.abandon();
    assert!(t.ready());
    let (req, res, _) = t.await_single(RequestVariant::GetVertexCount, vec![reply(0, ResponseVariant::Count(3))]);
    assert_eq!(req.request_id, 1);
    assert_eq!(res, Err(ClientError::UnexpectedResponseId { expected: 1, actual: 0 }));
}
