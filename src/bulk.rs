use vstd::prelude::*;

use crate::model::BulkInsertItem;

verus! {

/// The feed of a bulk load: hands out the items in order, one at a time,
/// until they are used up or the receiving side has gone away.
pub struct BulkFeed {
    /// The items not handed out yet, last first.
    pending: Vec<BulkInsertItem>,
    closed: bool,
}

impl BulkFeed {
    /// The items not handed out yet, in order.
    pub closed spec fn remaining(&self) -> Seq<BulkInsertItem> {
        Seq::new(self.pending@.len(), |i: int| self.pending@[self.pending@.len() - 1 - i])
    }

    /// Whether the receiving side has gone away.
    pub closed spec fn is_closed(&self) -> bool {
        self.closed
    }

    /// A feed of the given items.
    pub fn new(items: Vec<BulkInsertItem>) -> (f: BulkFeed)
        ensures
            f.remaining() == items@,
            !f.is_closed(),
    {
        let ghost orig = items@;
        let mut items = items;
        let mut pending: Vec<BulkInsertItem> = Vec::new();
        while items.len() > 0
            invariant
                pending@.len() + items@.len() == orig.len(),
                items@ == orig.take(items@.len() as int),
                forall|i: int| 0 <= i < pending@.len() ==> pending@[i] == orig[orig.len() - 1 - i],
            decreases items@.len(),
        {
            let item = items.pop().unwrap();
            assert(items@ =~= orig.take(items@.len() as int));
            pending.push(item);
        }
        let f = BulkFeed { pending, closed: false };
        assert(f.remaining() =~= orig);
        f
    }

    /// The next item to send, if any is left and the receiving side is there.
    pub fn next_item(&mut self) -> (r: Option<BulkInsertItem>)
        ensures
            final(self).is_closed() == old(self).is_closed(),
            old(self).is_closed() || old(self).remaining().len() == 0 ==> r is None
                && final(self).remaining() == old(self).remaining(),
            !old(self).is_closed() && old(self).remaining().len() > 0 ==> r == Some(
                old(self).remaining()[0],
            ) && final(self).remaining() == old(self).remaining().drop_first(),
    {
        if self.closed || self.pending.len() == 0 {
            return None;
        }
        let r = self.pending.pop();
        assert(self.remaining() =~= old(self).remaining().drop_first());
        r
    }

    /// A send failed: the receiving side has gone away, and nothing more is
    /// handed out.
    pub fn on_send_failed(&mut self)
        ensures
            final(self).is_closed(),
            final(self).remaining() == old(self).remaining(),
    {
        self.closed = true;
    }

    /// Whether anything is left to send.
    pub fn is_done(&self) -> (r: bool)
        ensures
            r == (self.is_closed() || self.remaining().len() == 0),
    {
        self.closed || self.pending.len() == 0
    }
}

} // verus!
