use indradb_proto::error::{check_request_id, ClientError, ConversionError, RemoteStatus};
use indradb_proto::messages::{Inbound, RequestVariant, ResponseVariant, TransactionResponse};
use indradb_proto::transaction::{Progress, Reply, Transaction};

fn reply(id: u32, r: ResponseVariant) -> Inbound {
    Inbound::Message(TransactionResponse { request_id: id, response: Some(r) })
}

#[test]
fn ids_count_up_on_sequential_calls() {
    let mut t = Transaction::new();
    let mut seen = Vec::new();
    for i in 0..6u32 {
        let (req, res, n) = t.await_single(RequestVariant::GetVertexCount, vec![reply(i, ResponseVariant::Count(7))]);
        seen.push(req.request_id);
        assert_eq!(res, Ok(ResponseVariant::Count(7)));
        assert_eq!(n, 1);
    }
    let (req, res, _) = t.await_multi(RequestVariant::GetVertexCount, vec![reply(6, ResponseVariant::Empty)]);
    seen.push(req.request_id);
    assert_eq!(res, Ok(vec![]));
    assert_eq!(seen, vec![0, 1, 2, 3, 4, 5, 6]);
    assert_eq!(t.next_request_id(), 7);
}

#[test]
fn single_reply_for_next_id_is_rejected() {
    let mut t = Transaction::new();
    let (_, res, n) = t.await_single(RequestVariant::GetVertexCount, vec![reply(1, ResponseVariant::Count(3))]);
    assert_eq!(res, Err(ClientError::UnexpectedResponseId { expected: 0, actual: 1 }));
    assert_eq!(n, 1);
    assert!(!t.is_awaiting_reply());
}

#[test]
fn multi_reply_for_next_id_is_rejected() {
    let mut t = Transaction::new();
    let inbound = vec![reply(0, ResponseVariant::Count(1)), reply(1, ResponseVariant::Count(2)), reply(0, ResponseVariant::Empty)];
    let (_, res, n) = t.await_multi(RequestVariant::GetVertexCount, inbound);
    assert_eq!(res, Err(ClientError::UnexpectedResponseId { expected: 0, actual: 1 }));
    assert_eq!(n, 2);
}

#[test]
fn ended_stream_fails_single_and_multi() {
    let mut t = Transaction::new();
    let (_, res, n) = t.await_single(RequestVariant::GetVertexCount, vec![]);
    assert_eq!(res, Err(ClientError::UnexpectedEmptyResponse { request_id: 0 }));
    assert_eq!(n, 0);
    let (_, res, n) = t.await_multi(RequestVariant::GetVertexCount, vec![]);
    assert_eq!(res, Err(ClientError::UnexpectedEmptyResponse { request_id: 1 }));
    assert_eq!(n, 0);
}

#[test]
fn stream_ending_inside_multi_reply_fails() {
    let mut t = Transaction::new();
    let (_, res, n) = t.await_multi(RequestVariant::GetVertexCount, vec![reply(0, ResponseVariant::Count(1))]);
    assert_eq!(res, Err(ClientError::UnexpectedEmptyResponse { request_id: 0 }));
    assert_eq!(n, 1);
}

#[test]
fn reply_without_body_is_empty_response() {
    let mut t = Transaction::new();
    let msg = Inbound::Message(TransactionResponse { request_id: 0, response: None });
    let (_, res, _) = t.await_single(RequestVariant::GetVertexCount, vec![msg]);
    assert_eq!(res, Err(ClientError::UnexpectedEmptyResponse { request_id: 0 }));
    // a missing body wins over a wrong identifier
    let msg = Inbound::Message(TransactionResponse { request_id: 9, response: None });
    let (_, res, _) = t.await_multi(RequestVariant::GetVertexCount, vec![msg]);
    assert_eq!(res, Err(ClientError::UnexpectedEmptyResponse { request_id: 1 }));
}

#[test]
fn failed_stream_reports_remote_status() {
    let mut t = Transaction::new();
    let status = RemoteStatus { code: 13, message: "internal".to_string() };
    let (_, res, n) = t.await_single(RequestVariant::GetVertexCount, vec![Inbound::Failed(status.clone())]);
    assert_eq!(res, Err(ClientError::Grpc { inner: status }));
    assert_eq!(n, 1);
}

#[test]
fn multi_reply_of_three_values_reads_four_events() {
    let mut t = Transaction::new();
    let inbound = vec![
        reply(0, ResponseVariant::Count(10)),
        reply(0, ResponseVariant::Count(20)),
        reply(0, ResponseVariant::Count(30)),
        reply(0, ResponseVariant::Empty),
        reply(0, ResponseVariant::Count(99)),
    ];
    let (_, res, n) = t.await_multi(RequestVariant::GetVertexCount, inbound);
    assert_eq!(res, Ok(vec![ResponseVariant::Count(10), ResponseVariant::Count(20), ResponseVariant::Count(30)]));
    assert_eq!(n, 4);
}

#[test]
fn multi_reply_of_terminator_only_is_empty() {
    let mut t = Transaction::new();
    let (_, res, n) = t.await_multi(RequestVariant::GetVertexCount, vec![reply(0, ResponseVariant::Empty)]);
    assert_eq!(res, Ok(vec![]));
    assert_eq!(n, 1);
}

#[test]
fn single_reply_takes_empty_payload_as_value() {
    let mut t = Transaction::new();
    let (_, res, _) = t.await_single(RequestVariant::GetVertexCount, vec![reply(0, ResponseVariant::Empty)]);
    assert_eq!(res, Ok(ResponseVariant::Empty));
}

#[test]
fn send_failure_is_channel_closed() {
    let mut t = Transaction::new();
    let req = t.get_vertex_count();
    assert_eq!(req.request_id, 0);
    assert!(t.is_awaiting_reply());
    assert!(!t.ready());
    assert_eq!(t.on_send_failed(), ClientError::ChannelClosed);
    assert!(!t.is_awaiting_reply());
    assert!(t.ready());
    assert_eq!(t.get_vertex_count().request_id, 1);
}

#[test]
fn stepwise_multi_reply() {
    let mut t = Transaction::new();
    let req = t.get_vertices(indradb_proto::model::VertexQuery::Specific { ids: vec![1, 2] });
    assert_eq!(req.request_id, 0);
    assert!(matches!(t.on_inbound(reply(0, ResponseVariant::Count(1))), Progress::AwaitMore));
    assert!(matches!(t.on_inbound(reply(0, ResponseVariant::Count(2))), Progress::AwaitMore));
    match t.on_inbound(reply(0, ResponseVariant::Empty)) {
        Progress::Done(Ok(Reply::Multi(v))) => assert_eq!(v, vec![ResponseVariant::Count(1), ResponseVariant::Count(2)]),
        other => panic!("unexpected {:?}", other),
    }
    assert!(t.ready());
}

#[test]
fn finish_reads_until_the_call_is_over() {
    let mut t = Transaction::new();
    t.delete_vertices(indradb_proto::model::VertexQuery::Specific { ids: vec![] });
    let (res, n) = t.finish(vec![reply(0, ResponseVariant::Empty), reply(0, ResponseVariant::Empty)]);
    assert!(matches!(res, Ok(Reply::Single(ResponseVariant::Empty))));
    assert_eq!(n, 1);
}

#[test]
fn request_id_check() {
    assert_eq!(check_request_id(4, 4), Ok(()));
    assert_eq!(check_request_id(4, 5), Err(ClientError::UnexpectedResponseId { expected: 4, actual: 5 }));
}

#[test]
fn conversion_error_lifts_into_client_error() {
    let e: ClientError = ConversionError::UnexpectedResponseType.into();
    assert_eq!(e, ClientError::Conversion { inner: ConversionError::UnexpectedResponseType });
}
