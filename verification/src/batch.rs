use core::marker::PhantomData;
use vstd::prelude::*;

use crate::codec::QueueMessage;
use crate::entry::Entry;
use crate::iter::MessageIter;

verus! {

/// One host-delivered batch: the originating queue's name, the entries in
/// whatever order the host delivered them (no ordering is promised to
/// callers), and the advisory retry marker the host consults after the
/// handler returns. `T` only pins what `iter` may decode to; no `T` value is
/// stored.
#[derive(Debug)]
pub struct MessageBatch<T> {
    queue_name: String,
    entries: Vec<Entry>,
    retry_requested: bool,
    data: PhantomData<T>,
}

/// What a batch shows the outside world: queue name, entries, retry marker.
pub type BatchView = (Seq<char>, Seq<Entry>, bool);

/// The one effect `retry_all` has on a batch's observable state: the marker
/// is set, everything else is kept. Notably independent of the old marker.
pub open spec fn retry_effect(v: BatchView) -> BatchView {
    (v.0, v.1, true)
}

impl<T> MessageBatch<T> {
    /// The batch's observable state.
    pub closed spec fn view_spec(&self) -> BatchView {
        (self.queue_name@, self.entries@, self.retry_requested)
    }

    /// The originating queue's name.
    pub open spec fn queue_name_spec(&self) -> Seq<char> {
        self.view_spec().0
    }

    /// The host-delivered entries, in delivery order.
    pub open spec fn entries_spec(&self) -> Seq<Entry> {
        self.view_spec().1
    }

    /// Whether the whole batch has been marked for redelivery.
    pub open spec fn retry_spec(&self) -> bool {
        self.view_spec().2
    }

    /// Take over a host-delivered batch: its queue name and its entries,
    /// with the retry marker initially clear.
    pub fn new(queue_name: String, entries: Vec<Entry>) -> (b: Self)
        ensures
            b.queue_name_spec() == queue_name@,
            b.entries_spec() == entries@,
            !b.retry_spec(),
    {
        MessageBatch { queue_name, entries, retry_requested: false, data: PhantomData }
    }

    /// The name of the queue that this batch belongs to.
    pub fn queue(&self) -> (r: String)
        ensures
            r@ == self.queue_name_spec(),
    {
        self.queue_name.clone()
    }

    /// Mark every message in the batch to be retried by the host after this
    /// processing invocation. Advisory and idempotent: the new state does not
    /// depend on how often it was called before.
    pub fn retry_all(&mut self)
        ensures
            final(self).view_spec() == retry_effect(old(self).view_spec()),
    {
        self.retry_requested = true;
    }

    /// Whether the batch stands marked for redelivery; this is what the host
    /// consults after the handler returns.
    pub fn retry_requested(&self) -> (r: bool)
        ensures
            r == self.retry_spec(),
    {
        self.retry_requested
    }

    /// A fresh lazy decoding pass over the full entry range, independent of
    /// every other iterator taken from this batch.
    pub fn iter(&self) -> (it: MessageIter<'_, T>)
        where T: QueueMessage,
        ensures
            it.wf(),
            it.entries_seq() == self.entries_spec(),
            it.lo() == 0,
            it.hi() == self.entries_spec().len(),
    {
        MessageIter::new(&self.entries)
    }
}

/// Marking a batch for retry is idempotent: a second marking changes nothing
/// that the first did not already establish.
pub proof fn lemma_retry_all_idempotent(v: BatchView)
    ensures
        retry_effect(retry_effect(v)) == retry_effect(v),
{
}

} // verus!
