use core::marker::PhantomData;
use vstd::prelude::*;

use crate::codec::QueueMessage;
use crate::entry::Entry;
use crate::error::QueueError;
use crate::message::Message;
use crate::message::entry_parses;
use crate::message::item_matches_outcome;
use crate::message::lemma_parsed_item_is_message;
use crate::message::parse_message;
use crate::message::parsed_message;

verus! {

/// A lazy, bidirectional, fallible decoder over a batch's entries.
///
/// It owns a cursor range `[low, high)` over entry indices and only reads the
/// shared, immutable entry sequence, so any number of iterators over one
/// batch coexist without affecting each other. Each step decodes exactly one
/// entry; a malformed entry yields its error for that slot and leaves the
/// iterator usable for every other slot. An exhausted iterator is terminal:
/// re-traversal takes a fresh iterator from the batch.
pub struct MessageIter<'a, T> {
    low: usize,
    high: usize,
    entries: &'a Vec<Entry>,
    data: PhantomData<T>,
}

impl<'a, T: QueueMessage> MessageIter<'a, T> {
    /// The full entry sequence this iterator ranges over.
    pub closed spec fn entries_seq(&self) -> Seq<Entry> {
        self.entries@
    }

    /// The cursor's lower bound: the next index a forward step decodes.
    pub closed spec fn lo(&self) -> int {
        self.low as int
    }

    /// The cursor's upper bound: one past the next index a backward step
    /// decodes.
    pub closed spec fn hi(&self) -> int {
        self.high as int
    }

    /// The cursor range lies within the entry sequence.
    pub open spec fn wf(&self) -> bool {
        0 <= self.lo() <= self.hi() <= self.entries_seq().len()
    }

    /// The entries not yet consumed, in delivery order.
    pub open spec fn remaining(&self) -> Seq<Entry> {
        self.entries_seq().subrange(self.lo(), self.hi())
    }

    /// Make an iterator covering `[0, entries.len())`.
    pub fn new(entries: &'a Vec<Entry>) -> (it: Self)
        ensures
            it.wf(),
            it.entries_seq() == entries@,
            it.lo() == 0,
            it.hi() == entries@.len(),
    {
        MessageIter { low: 0, high: entries.len(), entries, data: PhantomData }
    }

    /// Forward step: decode the entry at `low` and advance past it, or report
    /// exhaustion. Decoding never consults any entry but the one yielded.
    pub fn next(&mut self) -> (r: Option<Result<Message<T>, QueueError>>)
        requires
            old(self).wf(),
        ensures
            final(self).wf(),
            final(self).entries_seq() == old(self).entries_seq(),
            old(self).lo() == old(self).hi() ==> r is None && *final(self) == *old(self),
            old(self).lo() < old(self).hi() ==> {
                &&& final(self).lo() == old(self).lo() + 1
                &&& final(self).hi() == old(self).hi()
                &&& r matches Some(item) && item_matches_outcome::<T>(
                    old(self).entries_seq()[old(self).lo()],
                    item,
                )
            },
    {
        if self.low == self.high {
            None
        } else {
            let e = &self.entries[self.low];
            self.low = self.low + 1;
            Some(parse_message::<T>(e))
        }
    }

    /// Backward step: decode the entry at `high - 1` and shrink the range, or
    /// report exhaustion.
    pub fn next_back(&mut self) -> (r: Option<Result<Message<T>, QueueError>>)
        requires
            old(self).wf(),
        ensures
            final(self).wf(),
            final(self).entries_seq() == old(self).entries_seq(),
            old(self).lo() == old(self).hi() ==> r is None && *final(self) == *old(self),
            old(self).lo() < old(self).hi() ==> {
                &&& final(self).lo() == old(self).lo()
                &&& final(self).hi() == old(self).hi() - 1
                &&& r matches Some(item) && item_matches_outcome::<T>(
                    old(self).entries_seq()[old(self).hi() - 1],
                    item,
                )
            },
    {
        if self.low == self.high {
            None
        } else {
            let e = &self.entries[self.high - 1];
            self.high = self.high - 1;
            Some(parse_message::<T>(e))
        }
    }

    /// Exact count of entries still to be yielded, cheap at any point; both
    /// bounds coincide because the sequence length is known exactly.
    pub fn size_hint(&self) -> (r: (usize, Option<usize>))
        requires
            self.wf(),
        ensures
            r.0 == self.hi() - self.lo(),
            r.1 == Some(r.0),
    {
        (self.high - self.low, Some(self.high - self.low))
    }
}

/// The entry indices a cursor range `[lo, hi)` yields when stepped in the
/// given directions (`true` forward, `false` backward), in step order. Each
/// step narrows the range exactly as `next` and `next_back` do, so this is
/// the yield sequence of any interleaved traversal.
pub open spec fn step_indices(lo: int, hi: int, dirs: Seq<bool>) -> Seq<int>
    decreases dirs.len(),
{
    if dirs.len() == 0 || lo >= hi {
        Seq::empty()
    } else if dirs[0] {
        seq![lo] + step_indices(lo + 1, hi, dirs.drop_first())
    } else {
        seq![hi - 1] + step_indices(lo, hi - 1, dirs.drop_first())
    }
}

/// Mixing forward and backward steps never yields an entry twice and runs
/// out after exactly `hi - lo` yielding steps: however the directions are
/// interleaved, the yielded indices are distinct, lie in `[lo, hi)`, and
/// number `min(hi - lo, steps taken)`.
pub proof fn lemma_interleaved_traversal(lo: int, hi: int, dirs: Seq<bool>)
    requires
        lo <= hi,
    ensures
        dirs.len() >= hi - lo ==> step_indices(lo, hi, dirs).len() == hi - lo,
        dirs.len() <= hi - lo ==> step_indices(lo, hi, dirs).len() == dirs.len(),
        forall|k: int|
            0 <= k < step_indices(lo, hi, dirs).len() ==> lo <= #[trigger] step_indices(
                lo,
                hi,
                dirs,
            )[k] < hi,
        step_indices(lo, hi, dirs).no_duplicates(),
    decreases dirs.len(),
{
    if dirs.len() == 0 || lo >= hi {
    } else if dirs[0] {
        lemma_interleaved_traversal(lo + 1, hi, dirs.drop_first());
        let rest = step_indices(lo + 1, hi, dirs.drop_first());
        let s = step_indices(lo, hi, dirs);
        assert forall|i: int, j: int| 0 <= i < j < s.len() implies s[i] != s[j] by {
            if 0 < i {
                assert(s[i] == rest[i - 1] && s[j] == rest[j - 1]);
            }
        }
    } else {
        lemma_interleaved_traversal(lo, hi - 1, dirs.drop_first());
        let rest = step_indices(lo, hi - 1, dirs.drop_first());
        let s = step_indices(lo, hi, dirs);
        assert forall|i: int, j: int| 0 <= i < j < s.len() implies s[i] != s[j] by {
            if 0 < i {
                assert(s[i] == rest[i - 1] && s[j] == rest[j - 1]);
            }
        }
    }
}

/// The model anchored to a live iterator: stepping `it` to exhaustion, in
/// whatever interleaving of directions, yields each remaining index exactly
/// once — no entry twice, and exactly `size_hint` many steps yield.
pub proof fn lemma_iterator_yields_each_entry_once<'a, T: QueueMessage>(
    it: &MessageIter<'a, T>,
    dirs: Seq<bool>,
)
    requires
        it.wf(),
        dirs.len() >= it.hi() - it.lo(),
    ensures
        step_indices(it.lo(), it.hi(), dirs).len() == it.hi() - it.lo(),
        step_indices(it.lo(), it.hi(), dirs).no_duplicates(),
        forall|k: int|
            0 <= k < step_indices(it.lo(), it.hi(), dirs).len() ==> it.lo()
                <= #[trigger] step_indices(it.lo(), it.hi(), dirs)[k] < it.hi(),
{
    lemma_interleaved_traversal(it.lo(), it.hi(), dirs);
}

/// Pure forward traversal visits the range in delivery order: the k-th step
/// yields index `lo + k`. With each step's decode contract this is the law
/// that forward iteration yields the batch's messages in host order.
pub proof fn lemma_forward_traversal_in_order(lo: int, hi: int, dirs: Seq<bool>)
    requires
        lo <= hi,
        forall|k: int| 0 <= k < dirs.len() ==> #[trigger] dirs[k],
    ensures
        forall|k: int|
            0 <= k < step_indices(lo, hi, dirs).len() ==> #[trigger] step_indices(lo, hi, dirs)[k]
                == lo + k,
    decreases dirs.len(),
{
    if dirs.len() == 0 || lo >= hi {
    } else {
        lemma_forward_traversal_in_order(lo + 1, hi, dirs.drop_first());
        let rest = step_indices(lo + 1, hi, dirs.drop_first());
        let s = step_indices(lo, hi, dirs);
        assert forall|k: int| 0 <= k < s.len() implies #[trigger] s[k] == lo + k by {
            if 0 < k {
                assert(s[k] == rest[k - 1]);
            }
        }
    }
}

/// Pure backward traversal visits the range in exactly reversed order: the
/// k-th step yields index `hi - 1 - k`.
pub proof fn lemma_backward_traversal_reversed(lo: int, hi: int, dirs: Seq<bool>)
    requires
        lo <= hi,
        forall|k: int| 0 <= k < dirs.len() ==> !#[trigger] dirs[k],
    ensures
        forall|k: int|
            0 <= k < step_indices(lo, hi, dirs).len() ==> #[trigger] step_indices(lo, hi, dirs)[k]
                == hi - 1 - k,
    decreases dirs.len(),
{
    if dirs.len() == 0 || lo >= hi {
    } else {
        lemma_backward_traversal_reversed(lo, hi - 1, dirs.drop_first());
        let rest = step_indices(lo, hi - 1, dirs.drop_first());
        let s = step_indices(lo, hi, dirs);
        assert forall|k: int| 0 <= k < s.len() implies #[trigger] s[k] == hi - 1 - k by {
            if 0 < k {
                assert(s[k] == rest[k - 1]);
            }
        }
    }
}

/// For a batch of well-formed entries, forward iteration owes exactly the
/// batch's messages, `Ok`, in delivery order: the k-th forward step yields
/// index `lo + k`, and the one result the decode contract admits there is
/// that entry's own message.
pub proof fn lemma_forward_yields_messages_in_order<'a, T: QueueMessage>(
    it: &MessageIter<'a, T>,
    dirs: Seq<bool>,
    k: int,
    item: Result<Message<T>, QueueError>,
)
    requires
        it.wf(),
        forall|j: int| 0 <= j < dirs.len() ==> #[trigger] dirs[j],
        0 <= k < step_indices(it.lo(), it.hi(), dirs).len(),
        entry_parses::<T>(it.entries_seq()[it.lo() + k]),
        item_matches_outcome::<T>(it.entries_seq()[it.lo() + k], item),
    ensures
        step_indices(it.lo(), it.hi(), dirs)[k] == it.lo() + k,
        item == Ok::<Message<T>, QueueError>(parsed_message::<T>(it.entries_seq()[it.lo() + k])),
{
    lemma_interleaved_traversal(it.lo(), it.hi(), dirs);
    lemma_forward_traversal_in_order(it.lo(), it.hi(), dirs);
    lemma_parsed_item_is_message::<T>(it.entries_seq()[it.lo() + k], item);
}

/// For a batch of well-formed entries, backward iteration owes the same
/// messages in exactly reversed order: the k-th backward step yields index
/// `hi - 1 - k`, and the one result admitted there is that entry's message.
pub proof fn lemma_backward_yields_messages_reversed<'a, T: QueueMessage>(
    it: &MessageIter<'a, T>,
    dirs: Seq<bool>,
    k: int,
    item: Result<Message<T>, QueueError>,
)
    requires
        it.wf(),
        forall|j: int| 0 <= j < dirs.len() ==> !#[trigger] dirs[j],
        0 <= k < step_indices(it.lo(), it.hi(), dirs).len(),
        entry_parses::<T>(it.entries_seq()[it.hi() - 1 - k]),
        item_matches_outcome::<T>(it.entries_seq()[it.hi() - 1 - k], item),
    ensures
        step_indices(it.lo(), it.hi(), dirs)[k] == it.hi() - 1 - k,
        item == Ok::<Message<T>, QueueError>(
            parsed_message::<T>(it.entries_seq()[it.hi() - 1 - k]),
        ),
{
    lemma_interleaved_traversal(it.lo(), it.hi(), dirs);
    lemma_backward_traversal_reversed(it.lo(), it.hi(), dirs);
    lemma_parsed_item_is_message::<T>(it.entries_seq()[it.hi() - 1 - k], item);
}

} // verus!
