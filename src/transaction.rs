use vstd::prelude::*;

use crate::error::{check_request_id, ClientError};
use crate::messages::{Inbound, RequestVariant, ResponseVariant, TransactionRequest};

verus! {

/// Whether a call is answered by one reply, or by replies ended by `Empty`.
#[derive(Debug, Clone, Copy, PartialEq, Eq, Structural)]
pub enum ReplyShape {
    Single,
    Multi,
}

/// The one call a transaction awaits replies for, with the values a
/// multi-value reply has brought so far.
#[derive(Debug)]
pub struct PendingCall {
    pub request_id: u32,
    pub shape: ReplyShape,
    pub values: Vec<ResponseVariant>,
}

/// A complete answer to a call.
#[derive(Debug)]
pub enum Reply {
    Single(ResponseVariant),
    Multi(Vec<ResponseVariant>),
}

/// A complete answer to a call, as a mathematical value.
pub enum ReplyView {
    Single(ResponseVariant),
    Multi(Seq<ResponseVariant>),
}

impl View for Reply {
    type V = ReplyView;

    open spec fn view(&self) -> ReplyView {
        match self {
            Reply::Single(r) => ReplyView::Single(*r),
            Reply::Multi(v) => ReplyView::Multi(v@),
        }
    }
}

/// How a call ended, as a mathematical value.
pub open spec fn outcome_view(r: Result<Reply, ClientError>) -> Result<ReplyView, ClientError> {
    match r {
        Ok(reply) => Ok(reply@),
        Err(e) => Err(e),
    }
}

/// What a transaction asks of its driver after one inbound event.
#[derive(Debug)]
pub enum Progress {
    /// Read the inbound stream again.
    AwaitMore,
    /// The call is over.
    Done(Result<Reply, ClientError>),
}

/// The effect of one inbound event on a pending call.
pub enum StepView {
    /// The call goes on, having gathered these values.
    More(Seq<ResponseVariant>),
    /// The call is over.
    Finished(Result<ReplyView, ClientError>),
}

/// One inbound event applied to the call `id` of the given shape that has
/// gathered `values`: a failed stream reports the peer's status; an ended
/// stream or a reply without a body is an empty response; a reply for
/// another call is a desynchronisation; otherwise a single call is answered,
/// and a multi-value call ends at `Empty` or gathers the payload.
pub open spec fn step(id: u32, shape: ReplyShape, values: Seq<ResponseVariant>, ev: Inbound) -> StepView {
    match ev {
        Inbound::Failed(s) => StepView::Finished(Err(ClientError::Grpc { inner: s })),
        Inbound::Ended => StepView::Finished(Err(ClientError::UnexpectedEmptyResponse { request_id: id })),
        Inbound::Message(m) => match m.response {
            None => StepView::Finished(Err(ClientError::UnexpectedEmptyResponse { request_id: id })),
            Some(r) => if m.request_id != id {
                StepView::Finished(
                    Err(ClientError::UnexpectedResponseId { expected: id, actual: m.request_id }),
                )
            } else {
                match shape {
                    ReplyShape::Single => StepView::Finished(Ok(ReplyView::Single(r))),
                    ReplyShape::Multi => if r is Empty {
                        StepView::Finished(Ok(ReplyView::Multi(values)))
                    } else {
                        StepView::More(values.push(r))
                    },
                }
            },
        },
    }
}

/// How the call `id` ends when its replies are read from `evs`, where the
/// stream ends after the last of them, and how many of them are read.
pub open spec fn drain(id: u32, shape: ReplyShape, values: Seq<ResponseVariant>, evs: Seq<Inbound>) -> (
    Result<ReplyView, ClientError>,
    nat,
)
    decreases evs.len(),
{
    if evs.len() == 0 {
        match step(id, shape, values, Inbound::Ended) {
            StepView::Finished(r) => (r, 0),
            StepView::More(_) => (Err(ClientError::UnexpectedEmptyResponse { request_id: id }), 0),
        }
    } else {
        match step(id, shape, values, evs[0]) {
            StepView::Finished(r) => (r, 1),
            StepView::More(vs) => {
                let (r, n) = drain(id, shape, vs, evs.drop_first());
                (r, n + 1)
            },
        }
    }
}

/// A transaction: the call identifiers it hands out and the call it awaits.
///
/// Only one call is in flight at a time; a reply for any other identifier
/// than the awaited one is a desynchronisation.
pub struct Transaction {
    next_request_id: u32,
    pending: Option<PendingCall>,
}

impl Transaction {
    /// The identifier the next request will carry.
    pub closed spec fn next_id(&self) -> u32 {
        self.next_request_id
    }

    /// The call that awaits replies, if any.
    pub closed spec fn pending_call(&self) -> Option<PendingCall> {
        self.pending
    }

    pub open spec fn is_idle(&self) -> bool {
        self.pending_call() is None
    }

    /// Awaits replies to the call `id` of the given shape, having gathered `values`.
    pub open spec fn awaiting(&self, id: u32, shape: ReplyShape, values: Seq<ResponseVariant>) -> bool {
        &&& self.pending_call() is Some
        &&& self.pending_call()->Some_0.request_id == id
        &&& self.pending_call()->Some_0.shape == shape
        &&& self.pending_call()->Some_0.values@ == values
    }

    /// `new` issued the request `id` for a call of the given shape.
    pub open spec fn issued(old: Transaction, new: Transaction, id: u32, shape: ReplyShape) -> bool {
        &&& id == old.next_id()
        &&& new.next_id() == old.next_id() + 1
        &&& new.awaiting(id, shape, Seq::empty())
    }

    /// Whether a request can be issued: no call is pending and identifiers
    /// are not used up.
    pub open spec fn can_issue(&self) -> bool {
        self.is_idle() && self.next_id() < u32::MAX
    }

    /// A transaction with no call issued; its first request carries 0.
    pub fn new() -> (t: Transaction)
        ensures
            t.next_id() == 0,
            t.is_idle(),
    {
        Transaction { next_request_id: 0, pending: None }
    }

    /// The identifier the next request will carry.
    pub fn next_request_id(&self) -> (r: u32)
        ensures
            r == self.next_id(),
    {
        self.next_request_id
    }

    /// Whether a request can be issued now.
    pub fn ready(&self) -> (r: bool)
        ensures
            r == self.can_issue(),
    {
        self.pending.is_none() && self.next_request_id < u32::MAX
    }

    /// Whether a call awaits replies.
    pub fn is_awaiting_reply(&self) -> (r: bool)
        ensures
            r == !self.is_idle(),
    {
        self.pending.is_some()
    }

    /// Tags an operation with the next call identifier and awaits its replies.
    pub fn request(&mut self, request: RequestVariant, shape: ReplyShape) -> (r: TransactionRequest)
        requires
            old(self).can_issue(),
        ensures
            r.request == request,
            Transaction::issued(*old(self), *final(self), r.request_id, shape),
    {
        let request_id = self.next_request_id;
        self.next_request_id = self.next_request_id + 1;
        self.pending = Some(PendingCall { request_id, shape, values: Vec::new() });
        TransactionRequest { request_id, request }
    }

    /// The request could not be sent: the outbound side is closed.
    pub fn on_send_failed(&mut self) -> (e: ClientError)
        ensures
            e == ClientError::ChannelClosed,
            final(self).is_idle(),
            final(self).next_id() == old(self).next_id(),
    {
        self.pending = None;
        ClientError::ChannelClosed
    }

    /// The caller awaiting the pending call has gone away. The call is
    /// dropped and the counter kept, so replies still on their way to it are
    /// caught as a desynchronisation by the next call.
    pub fn abandon(&mut self)
        ensures
            final(self).is_idle(),
            final(self).next_id() == old(self).next_id(),
    {
        self.pending = None;
    }

    /// Applies one inbound event to the pending call.
    pub fn on_inbound(&mut self, ev: Inbound) -> (p: Progress)
        requires
            old(self).pending_call() is Some,
        ensures
            final(self).next_id() == old(self).next_id(),
            ({
                let pc = old(self).pending_call()->Some_0;
                match step(pc.request_id, pc.shape, pc.values@, ev) {
                    StepView::More(vs) => p is AwaitMore && final(self).awaiting(pc.request_id, pc.shape, vs),
                    StepView::Finished(res) => p matches Progress::Done(x) && outcome_view(x) == res
                        && final(self).is_idle(),
                }
            }),
    {
        let pc = self.pending.take().unwrap();
        let PendingCall { request_id, shape, mut values } = pc;
        let m = match ev {
            Inbound::Failed(s) => {
                return Progress::Done(Err(ClientError::Grpc { inner: s }));
            },
            Inbound::Ended => {
                return Progress::Done(Err(ClientError::UnexpectedEmptyResponse { request_id }));
            },
            Inbound::Message(m) => m,
        };
        let r = match m.response {
            Some(r) => r,
            None => {
                return Progress::Done(Err(ClientError::UnexpectedEmptyResponse { request_id }));
            },
        };
        if let Err(e) = check_request_id(request_id, m.request_id) {
            return Progress::Done(Err(e));
        }
        match shape {
            ReplyShape::Single => Progress::Done(Ok(Reply::Single(r))),
            ReplyShape::Multi => {
                if let ResponseVariant::Empty = r {
                    Progress::Done(Ok(Reply::Multi(values)))
                } else {
                    values.push(r);
                    self.pending = Some(PendingCall { request_id, shape, values });
                    Progress::AwaitMore
                }
            },
        }
    }
    /// Reads replies to the pending call from `inbound`, taken as the whole
    /// rest of the stream, until the call is over; returns how it ended and
    /// how many events it read.
    pub fn finish(&mut self, inbound: Vec<Inbound>) -> (r: (Result<Reply, ClientError>, usize))
        requires
            old(self).pending_call() is Some,
        ensures
            final(self).is_idle(),
            final(self).next_id() == old(self).next_id(),
            ({
                let pc = old(self).pending_call()->Some_0;
                let (res, n) = drain(pc.request_id, pc.shape, pc.values@, inbound@);
                outcome_view(r.0) == res && r.1 as nat == n
            }),
    {
        let ghost pc0 = self.pending_call()->Some_0;
        let ghost evs = inbound@;
        let ghost next0 = self.next_id();
        let mut rest = inbound;
        let mut consumed: usize = 0;
        assert(evs.len() == rest.len());
        loop
            invariant
                self.pending_call() is Some,
                next0 == old(self).next_id(),
                pc0 == old(self).pending_call()->Some_0,
                evs == inbound@,
                evs.len() <= usize::MAX,
                self.next_id() == next0,
                self.pending_call()->Some_0.request_id == pc0.request_id,
                self.pending_call()->Some_0.shape == pc0.shape,
                evs.len() == consumed + rest@.len(),
                rest@ == evs.skip(consumed as int),
                ({
                    let pc = self.pending_call()->Some_0;
                    let (res, n) = drain(pc.request_id, pc.shape, pc.values@, rest@);
                    drain(pc0.request_id, pc0.shape, pc0.values@, evs) == (res, (n + consumed) as nat)
                }),
            decreases rest@.len(),
        {
            if rest.len() == 0 {
                let request_id = match &self.pending {
                    Some(pc) => pc.request_id,
                    None => 0,
                };
                self.pending = None;
                return (Err(ClientError::UnexpectedEmptyResponse { request_id }), consumed);
            }
            let ghost before = rest@;
            let ev = rest.remove(0);
            consumed = consumed + 1;
            assert(rest@ =~= before.drop_first());
            assert(rest@ =~= evs.skip(consumed as int));
            match self.on_inbound(ev) {
                Progress::Done(x) => {
                    return (x, consumed);
                },
                Progress::AwaitMore => {},
            }
        }
    }

    /// Issues a call answered by one reply and reads that reply from
    /// `inbound`, taken as the whole rest of the stream.
    pub fn await_single(&mut self, request: RequestVariant, inbound: Vec<Inbound>) -> (r: (
        TransactionRequest,
        Result<ResponseVariant, ClientError>,
        usize,
    ))
        requires
            old(self).can_issue(),
        ensures
            r.0.request == request,
            r.0.request_id == old(self).next_id(),
            final(self).next_id() == old(self).next_id() + 1,
            final(self).is_idle(),
            ({
                let (res, n) = drain(r.0.request_id, ReplyShape::Single, Seq::empty(), inbound@);
                r.2 as nat == n && match res {
                    Ok(ReplyView::Single(x)) => r.1 == Ok::<ResponseVariant, ClientError>(x),
                    Ok(ReplyView::Multi(_)) => false,
                    Err(e) => r.1 == Err::<ResponseVariant, ClientError>(e),
                }
            }),
    {
        let req = self.request(request, ReplyShape::Single);
        let (res, n) = self.finish(inbound);
        let out = match res {
            Ok(Reply::Single(x)) => Ok(x),
            Ok(Reply::Multi(_)) => {
                proof {
                    lemma_single_is_single(req.request_id, inbound@);
                }
                Err(ClientError::UnexpectedEmptyResponse { request_id: req.request_id })
            },
            Err(e) => Err(e),
        };
        (req, out, n)
    }

    /// Issues a call answered by zero or more replies ended by `Empty`, and
    /// reads them from `inbound`, taken as the whole rest of the stream.
    pub fn await_multi(&mut self, request: RequestVariant, inbound: Vec<Inbound>) -> (r: (
        TransactionRequest,
        Result<Vec<ResponseVariant>, ClientError>,
        usize,
    ))
        requires
            old(self).can_issue(),
        ensures
            r.0.request == request,
            r.0.request_id == old(self).next_id(),
            final(self).next_id() == old(self).next_id() + 1,
            final(self).is_idle(),
            ({
                let (res, n) = drain(r.0.request_id, ReplyShape::Multi, Seq::empty(), inbound@);
                r.2 as nat == n && match res {
                    Ok(ReplyView::Multi(vs)) => r.1 matches Ok(v) && v@ == vs,
                    Ok(ReplyView::Single(_)) => false,
                    Err(e) => r.1 == Err::<Vec<ResponseVariant>, ClientError>(e),
                }
            }),
    {
        let req = self.request(request, ReplyShape::Multi);
        let (res, n) = self.finish(inbound);
        let out = match res {
            Ok(Reply::Multi(v)) => Ok(v),
            Ok(Reply::Single(_)) => {
                proof {
                    lemma_multi_is_multi(req.request_id, Seq::empty(), inbound@);
                }
                Err(ClientError::UnexpectedEmptyResponse { request_id: req.request_id })
            },
            Err(e) => Err(e),
        };
        (req, out, n)
    }
}

/// A single-value call never ends with a multi-value answer.
proof fn lemma_single_is_single(id: u32, evs: Seq<Inbound>)
    ensures
        !(drain(id, ReplyShape::Single, Seq::empty(), evs).0 matches Ok(ReplyView::Multi(_))),
{
}

/// A multi-value call never ends with a single-value answer.
proof fn lemma_multi_is_multi(id: u32, values: Seq<ResponseVariant>, evs: Seq<Inbound>)
    ensures
        !(drain(id, ReplyShape::Multi, values, evs).0 matches Ok(ReplyView::Single(_))),
    decreases evs.len(),
{
    if evs.len() > 0 {
        match step(id, ReplyShape::Multi, values, evs[0]) {
            StepView::More(vs) => lemma_multi_is_multi(id, vs, evs.drop_first()),
            StepView::Finished(_) => {},
        }
    }
}

} // verus!
