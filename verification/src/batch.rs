//! Batching of embedding work: a bounded buffer of pending items with
//! counts of what it processed and dropped, the rule that decides when a
//! batch is due, and the taking of one batch from a queue. Embedding itself
//! (floating point) runs in the application.
use vstd::prelude::*;
use std::collections::VecDeque;

verus! {

/// Batch processing configuration.
pub struct BatchConfig {
    /// Items per batch.
    pub batch_size: usize,
    /// Capacity of the queue.
    pub max_buffer_size: usize,
    /// Longest wait before a partial batch is processed (milliseconds).
    pub timeout_ms: u64,
    /// Number of workers.
    pub worker_count: usize,
}

impl Default for BatchConfig {
    fn default() -> (c: Self)
        ensures
            c.batch_size == 32,
            c.max_buffer_size == 1000,
            c.timeout_ms == 100,
            c.worker_count == 4,
    {
        BatchConfig { batch_size: 32, max_buffer_size: 1000, timeout_ms: 100, worker_count: 4 }
    }
}

/// Whether a worker holding `pending` items processes them now: a full
/// batch is due at once, a partial one once `timeout_ms` milliseconds
/// have passed since the last batch; nothing is due for no items.
pub open spec fn batch_due(pending: nat, batch_size: nat, elapsed_ms: nat, timeout_ms: nat) -> bool {
    pending > 0 && (pending >= batch_size || elapsed_ms >= timeout_ms)
}

/// Whether a worker holding `pending` items processes them now.
pub fn flush_due(pending: usize, batch_size: usize, elapsed_ms: u64, timeout_ms: u64) -> (r: bool)
    ensures
        r == batch_due(pending as nat, batch_size as nat, elapsed_ms as nat, timeout_ms as nat),
{
    (pending >= batch_size || (pending > 0 && elapsed_ms >= timeout_ms)) && pending > 0
}

/// Takes the next batch from the front of `queue`: up to `batch_size`
/// items, in order.
pub fn take_batch<T>(queue: &mut VecDeque<T>, batch_size: usize) -> (items: Vec<T>)
    ensures
        items@.len() == if old(queue)@.len() < batch_size {
            old(queue)@.len()
        } else {
            batch_size as nat
        },
        items@ == old(queue)@.take(items@.len() as int),
        final(queue)@ == old(queue)@.skip(items@.len() as int),
{
    let mut items: Vec<T> = Vec::new();
    let ghost q0 = queue@;
    while items.len() < batch_size && queue.len() > 0
        invariant
            items@.len() <= batch_size,
            items@.len() + queue@.len() == q0.len(),
            items@ == q0.take(items@.len() as int),
            queue@ == q0.skip(items@.len() as int),
        decreases queue@.len(),
    {
        match queue.pop_front() {
            Some(item) => {
                items.push(item);
                assert(items@ =~= q0.take(items@.len() as int));
                assert(queue@ =~= q0.skip(items@.len() as int));
            },
            None => {
                assert(false);
            },
        }
    }
    items
}

/// Batch buffer statistics.
pub struct BatchBufferStats {
    /// Items waiting.
    pub size: usize,
    /// Capacity.
    pub max_size: usize,
    /// Items taken out so far.
    pub total_processed: usize,
    /// Items refused for lack of room so far.
    pub total_dropped: usize,
}

/// A bounded buffer of pending items.
pub struct BatchBuffer<T> {
    items: VecDeque<T>,
    max_size: usize,
    total_processed: usize,
    total_dropped: usize,
}

impl<T> BatchBuffer<T> {
    /// The items waiting, oldest first.
    pub closed spec fn items_spec(&self) -> Seq<T> {
        self.items@
    }

    /// The capacity.
    pub closed spec fn max_spec(&self) -> usize {
        self.max_size
    }

    /// Items taken out so far.
    pub closed spec fn processed_spec(&self) -> usize {
        self.total_processed
    }

    /// Items refused so far.
    pub closed spec fn dropped_spec(&self) -> usize {
        self.total_dropped
    }

    /// The invariant: no more items wait than the capacity.
    pub open spec fn wf(&self) -> bool {
        self.items_spec().len() <= self.max_spec()
    }

    /// An empty buffer of capacity `max_size`.
    pub fn new(max_size: usize) -> (b: Self)
        ensures
            b.wf(),
            b.items_spec() == Seq::<T>::empty(),
            b.max_spec() == max_size,
            b.processed_spec() == 0,
            b.dropped_spec() == 0,
    {
        BatchBuffer { items: VecDeque::new(), max_size, total_processed: 0, total_dropped: 0 }
    }

    /// Adds an item at the back; when the buffer is full the item is
    /// dropped (and counted) instead. Returns whether it was added.
    pub fn push(&mut self, item: T) -> (added: bool)
        requires
            old(self).dropped_spec() < usize::MAX,
        ensures
            final(self).max_spec() == old(self).max_spec(),
            final(self).processed_spec() == old(self).processed_spec(),
            old(self).wf() ==> final(self).wf(),
            added == (old(self).items_spec().len() < old(self).max_spec()),
            added ==> final(self).items_spec() == old(self).items_spec().push(item)
                && final(self).dropped_spec() == old(self).dropped_spec(),
            !added ==> final(self).items_spec() == old(self).items_spec()
                && final(self).dropped_spec() == old(self).dropped_spec() + 1,
    {
        if self.items.len() >= self.max_size {
            self.total_dropped = self.total_dropped + 1;
            return false;
        }
        self.items.push_back(item);
        true
    }

    /// Takes the oldest item out, counting it as processed.
    pub fn pop(&mut self) -> (item: Option<T>)
        requires
            old(self).processed_spec() < usize::MAX,
        ensures
            final(self).max_spec() == old(self).max_spec(),
            final(self).dropped_spec() == old(self).dropped_spec(),
            old(self).wf() ==> final(self).wf(),
            old(self).items_spec().len() == 0 ==> item is None && final(self).items_spec()
                == old(self).items_spec() && final(self).processed_spec()
                == old(self).processed_spec(),
            old(self).items_spec().len() > 0 ==> item == Some(old(self).items_spec()[0])
                && final(self).items_spec() == old(self).items_spec().drop_first()
                && final(self).processed_spec() == old(self).processed_spec() + 1,
    {
        let item = self.items.pop_front();
        if item.is_some() {
            self.total_processed = self.total_processed + 1;
        }
        item
    }

    /// How many items wait.
    pub fn size(&self) -> (n: usize)
        ensures
            n == self.items_spec().len(),
    {
        self.items.len()
    }

    /// The statistics of the buffer.
    pub fn stats(&self) -> (s: BatchBufferStats)
        ensures
            s.size == self.items_spec().len(),
            s.max_size == self.max_spec(),
            s.total_processed == self.processed_spec(),
            s.total_dropped == self.dropped_spec(),
    {
        BatchBufferStats {
            size: self.items.len(),
            max_size: self.max_size,
            total_processed: self.total_processed,
            total_dropped: self.total_dropped,
        }
    }
}

/// Law: a buffer is first in, first out: pushing into a buffer with room
/// and popping gives back the oldest item, and pushed items come out in the
/// order they went in.
pub proof fn lemma_fifo<T>(items: Seq<T>, x: T)
    requires
        items.len() > 0,
    ensures
        items.push(x)[0] == items[0],
        items.push(x).drop_first() == items.drop_first().push(x),
{
    assert(items.push(x).drop_first() =~= items.drop_first().push(x));
}

} // verus!
