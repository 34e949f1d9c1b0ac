use vstd::prelude::*;

use crate::error::ClientError;
use crate::messages::{Inbound, ResponseVariant, TransactionResponse};
use crate::transaction::{drain, ReplyShape, ReplyView, Transaction};

verus! {

/// Replies to the call `id` whose bodies are the given payloads, in order.
pub open spec fn replies(id: u32, v: Seq<ResponseVariant>) -> Seq<Inbound> {
    Seq::new(
        v.len(),
        |i: int| Inbound::Message(TransactionResponse { request_id: id, response: Some(v[i]) }),
    )
}

/// The reply that ends the multi-value answer to the call `id`.
pub open spec fn terminator(id: u32) -> Inbound {
    Inbound::Message(TransactionResponse { request_id: id, response: Some(ResponseVariant::Empty) })
}

/// Calls made one after another on a fresh transaction carry 0, 1, 2, ...:
/// each call carries the identifier its transaction held and leaves it one
/// higher, and the first transaction holds 0.
pub proof fn lemma_call_ids_count_up(states: Seq<Transaction>, ids: Seq<u32>)
    requires
        states.len() == ids.len() + 1,
        states[0].next_id() == 0,
        forall|i: int|
            0 <= i < ids.len() ==> #[trigger] ids[i] == states[i].next_id() && states[i + 1].next_id()
                == states[i].next_id() + 1,
    ensures
        forall|i: int| 0 <= i < ids.len() ==> ids[i] == i,
{
    assert forall|i: int| 0 <= i < ids.len() implies ids[i] == i by {
        lemma_counter_at(states, ids, i);
    }
}

proof fn lemma_counter_at(states: Seq<Transaction>, ids: Seq<u32>, k: int)
    requires
        states.len() == ids.len() + 1,
        states[0].next_id() == 0,
        forall|i: int|
            0 <= i < ids.len() ==> #[trigger] ids[i] == states[i].next_id() && states[i + 1].next_id()
                == states[i].next_id() + 1,
        0 <= k < states.len(),
    ensures
        states[k].next_id() == k,
    decreases k,
{
    if k > 0 {
        lemma_counter_at(states, ids, k - 1);
        assert(ids[k - 1] == states[k - 1].next_id());
    }
}

/// A reply with a body for another call than the awaited one ends the call
/// with `UnexpectedResponseId` after one read, whatever follows it.
pub proof fn lemma_foreign_reply_rejected(
    id: u32,
    shape: ReplyShape,
    values: Seq<ResponseVariant>,
    m: TransactionResponse,
    rest: Seq<Inbound>,
)
    requires
        m.response is Some,
        m.request_id != id,
    ensures
        drain(id, shape, values, seq![Inbound::Message(m)] + rest) == (
            Err::<ReplyView, ClientError>(
                ClientError::UnexpectedResponseId { expected: id, actual: m.request_id },
            ),
            1nat,
        ),
{
    let s = seq![Inbound::Message(m)] + rest;
    assert(s[0] == Inbound::Message(m));
}

/// A stream that ends before any reply ends the call with
/// `UnexpectedEmptyResponse`, for either shape of call.
pub proof fn lemma_ended_stream(id: u32, shape: ReplyShape, values: Seq<ResponseVariant>)
    ensures
        drain(id, shape, values, Seq::empty()) == (
            Err::<ReplyView, ClientError>(ClientError::UnexpectedEmptyResponse { request_id: id }),
            0nat,
        ),
{
}

/// Non-empty replies to a multi-value call followed by its terminator give
/// exactly those payloads, in order, after reading one more event than there
/// are payloads; what follows the terminator is left unread.
pub proof fn lemma_multi_reply_collected(id: u32, v: Seq<ResponseVariant>, rest: Seq<Inbound>)
    requires
        forall|i: int| 0 <= i < v.len() ==> !(#[trigger] v[i] is Empty),
    ensures
        drain(id, ReplyShape::Multi, Seq::empty(), replies(id, v) + seq![terminator(id)] + rest) == (
            Ok::<ReplyView, ClientError>(ReplyView::Multi(v)),
            v.len() + 1,
        ),
{
    lemma_multi_gathers(id, Seq::empty(), v, rest);
    assert(Seq::<ResponseVariant>::empty() + v =~= v);
}

proof fn lemma_multi_gathers(
    id: u32,
    acc: Seq<ResponseVariant>,
    v: Seq<ResponseVariant>,
    rest: Seq<Inbound>,
)
    requires
        forall|i: int| 0 <= i < v.len() ==> !(#[trigger] v[i] is Empty),
    ensures
        drain(id, ReplyShape::Multi, acc, replies(id, v) + seq![terminator(id)] + rest) == (
            Ok::<ReplyView, ClientError>(ReplyView::Multi(acc + v)),
            v.len() + 1,
        ),
    decreases v.len(),
{
    let s = replies(id, v) + seq![terminator(id)] + rest;
    if v.len() == 0 {
        assert(s[0] == terminator(id));
        assert(acc + v =~= acc);
    } else {
        let tail = v.drop_first();
        assert(s[0] == replies(id, v)[0]);
        assert(s.drop_first() =~= replies(id, tail) + seq![terminator(id)] + rest);
        assert forall|i: int| 0 <= i < tail.len() implies !(#[trigger] tail[i] is Empty) by {
            assert(tail[i] == v[i + 1]);
        }
        lemma_multi_gathers(id, acc.push(v[0]), tail, rest);
        assert(acc.push(v[0]) + tail =~= acc + v);
    }
}

/// A single-value call whose first read brings a reply with a body for it is
/// answered with exactly that body after one read, whatever follows.
pub proof fn lemma_single_reply_accepted(id: u32, r: ResponseVariant, rest: Seq<Inbound>)
    ensures
        drain(
            id,
            ReplyShape::Single,
            Seq::empty(),
            seq![Inbound::Message(TransactionResponse { request_id: id, response: Some(r) })] + rest,
        ) == (Ok::<ReplyView, ClientError>(ReplyView::Single(r)), 1nat),
{
    let s = seq![Inbound::Message(TransactionResponse { request_id: id, response: Some(r) })] + rest;
    assert(s[0] == Inbound::Message(TransactionResponse { request_id: id, response: Some(r) }));
}

} // verus!
