//! Providers and their export queues. A provider takes finished records,
//! keeps them in a bounded first-in-first-out queue, hands them out in
//! batches, and hands out what is left when it is shut down.

use std::collections::VecDeque;
use vstd::prelude::*;

verus! {

/// What became of a record that was offered to a provider.
#[derive(Clone, Copy, Debug, PartialEq, Eq, Structural)]
pub enum Offer {
    /// The record is in the queue.
    Accepted,
    /// The queue was full: the record is lost and counted.
    DroppedFull,
    /// The provider was shut down: the record is lost and counted.
    DroppedShutDown,
}

/// How a provider batches: at most `max_batch` records per export, one
/// export every `interval_secs` seconds, at most `capacity` records waiting.
#[derive(Clone, Copy, Debug, PartialEq, Eq, Structural)]
pub struct BatchPolicy {
    pub capacity: usize,
    pub max_batch: usize,
    pub interval_secs: u64,
}

/// A provider as specifications see it.
pub struct ProviderView<T> {
    /// The records that wait for export, oldest first.
    pub queued: Seq<T>,
    pub policy: BatchPolicy,
    pub shut_down: bool,
    /// The records lost so far.
    pub dropped: u64,
}

/// One more lost record; the count stops at the largest number it can hold.
pub open spec fn one_more(dropped: u64) -> u64 {
    if dropped < u64::MAX {
        (dropped + 1) as u64
    } else {
        dropped
    }
}

/// What an offered record meets.
pub open spec fn offer_outcome<T>(p: ProviderView<T>) -> Offer {
    if p.shut_down {
        Offer::DroppedShutDown
    } else if p.queued.len() >= p.policy.capacity {
        Offer::DroppedFull
    } else {
        Offer::Accepted
    }
}

/// The provider after a record was offered.
pub open spec fn after_offer<T>(p: ProviderView<T>, record: T) -> ProviderView<T> {
    if offer_outcome(p) == Offer::Accepted {
        ProviderView { queued: p.queued.push(record), ..p }
    } else {
        ProviderView { dropped: one_more(p.dropped), ..p }
    }
}

/// The provider after each of `records` was offered, in order.
pub open spec fn after_offers<T>(p: ProviderView<T>, records: Seq<T>) -> ProviderView<T>
    decreases records.len(),
{
    if records.len() == 0 {
        p
    } else {
        after_offer(after_offers(p, records.drop_last()), records.last())
    }
}

/// How many of `records`, offered in order, are accepted.
pub open spec fn accepted_among<T>(p: ProviderView<T>, records: Seq<T>) -> nat
    decreases records.len(),
{
    if records.len() == 0 {
        0
    } else {
        let before = accepted_among(p, records.drop_last());
        if offer_outcome(after_offers(p, records.drop_last())) == Offer::Accepted {
            before + 1
        } else {
            before
        }
    }
}

/// How many records the next batch holds.
pub open spec fn batch_len<T>(p: ProviderView<T>) -> int {
    if p.queued.len() <= p.policy.max_batch {
        p.queued.len() as int
    } else {
        p.policy.max_batch as int
    }
}

/// The next batch: the oldest records, as many as the policy allows.
pub open spec fn next_batch_of<T>(p: ProviderView<T>) -> Seq<T> {
    p.queued.take(batch_len(p))
}

/// The provider after its next batch was taken.
pub open spec fn after_batch<T>(p: ProviderView<T>) -> ProviderView<T> {
    ProviderView { queued: p.queued.skip(batch_len(p)), ..p }
}

/// What a shutdown flushes: everything that waits. A provider is flushed
/// once, so a provider that is already shut down flushes nothing.
pub open spec fn flushed_by_shutdown<T>(p: ProviderView<T>) -> Seq<T> {
    if p.shut_down {
        Seq::empty()
    } else {
        p.queued
    }
}

/// The provider after a shutdown: shut down, with nothing waiting.
pub open spec fn after_shutdown<T>(p: ProviderView<T>) -> ProviderView<T> {
    ProviderView { queued: Seq::empty(), shut_down: true, ..p }
}

/// A policy is usable when a batch holds at least one record and the queue
/// holds at least one batch.
pub open spec fn usable_policy(policy: BatchPolicy) -> bool {
    1 <= policy.max_batch <= policy.capacity
}

/// The policy of the span and log pipelines where nothing else is
/// configured: 2048 waiting, 512 per batch, every 5 seconds.
pub open spec fn default_policy() -> BatchPolicy {
    BatchPolicy { capacity: 2048, max_batch: 512, interval_secs: 5 }
}

/// The policy of the metric pipeline: like the default, every 10 seconds.
pub open spec fn metric_policy() -> BatchPolicy {
    BatchPolicy { capacity: 2048, max_batch: 512, interval_secs: 10 }
}

impl BatchPolicy {
    /// The default policy.
    pub fn standard() -> (p: Self)
        ensures
            p == default_policy(),
            usable_policy(p),
    {
        BatchPolicy { capacity: 2048, max_batch: 512, interval_secs: 5 }
    }

    /// The policy of the metric pipeline.
    pub fn for_metrics() -> (p: Self)
        ensures
            p == metric_policy(),
            usable_policy(p),
    {
        BatchPolicy { capacity: 2048, max_batch: 512, interval_secs: 10 }
    }

    /// Whether the policy is usable.
    pub fn is_usable(&self) -> (b: bool)
        ensures
            b == usable_policy(*self),
    {
        1 <= self.max_batch && self.max_batch <= self.capacity
    }
}

/// An export batch as specifications see it: the records that wait,
/// oldest first, and the most that may wait.
pub struct BatchView<T> {
    pub records: Seq<T>,
    pub capacity: usize,
}

/// The bounded first-in-first-out queue of a provider. Request tasks and
/// background tasks put finished records in; the provider's export loop
/// takes them out.
pub struct ExportBatch<T> {
    records: VecDeque<T>,
    capacity: usize,
}

impl<T> View for ExportBatch<T> {
    type V = BatchView<T>;

    closed spec fn view(&self) -> BatchView<T> {
        BatchView { records: self.records@, capacity: self.capacity }
    }
}

impl<T> ExportBatch<T> {
    #[verifier::type_invariant]
    pub closed spec fn well_formed(self) -> bool {
        self.records@.len() <= self.capacity
    }

    /// An empty queue with room for `capacity` records.
    pub fn new(capacity: usize) -> (q: Self)
        ensures
            q@ == (BatchView { records: Seq::<T>::empty(), capacity }),
    {
        ExportBatch { records: VecDeque::new(), capacity }
    }

    /// The number of records that wait.
    pub fn len(&self) -> (n: usize)
        ensures
            n == self@.records.len(),
            n <= self@.capacity,
    {
        proof {
            use_type_invariant(self);
        }
        self.records.len()
    }

    /// Whether the queue has no room left.
    pub fn is_full(&self) -> (b: bool)
        ensures
            b == (self@.records.len() >= self@.capacity),
    {
        self.records.len() >= self.capacity
    }

    /// Puts a record at the end of the queue. A full queue is left as it
    /// is and gives the record back.
    pub fn push(&mut self, record: T) -> (refused: Option<T>)
        ensures
            old(self)@.records.len() < old(self)@.capacity ==> refused is None && final(self)@ == (BatchView {
                records: old(self)@.records.push(record),
                ..old(self)@
            }),
            old(self)@.records.len() >= old(self)@.capacity ==> refused == Some(record) && final(self)@ == old(
                self,
            )@,
    {
        proof {
            use_type_invariant(&*self);
        }
        if self.records.len() >= self.capacity {
            return Some(record);
        }
        let mut records: VecDeque<T> = VecDeque::new();
        core::mem::swap(&mut records, &mut self.records);
        records.push_back(record);
        self.records = records;
        None
    }

    /// Takes the `count` oldest records out of the queue, oldest first.
    pub fn take(&mut self, count: usize) -> (taken: Vec<T>)
        requires
            count <= old(self)@.records.len(),
        ensures
            taken@ == old(self)@.records.take(count as int),
            final(self)@ == (BatchView { records: old(self)@.records.skip(count as int), ..old(self)@ }),
    {
        proof {
            use_type_invariant(&*self);
        }
        let mut records: VecDeque<T> = VecDeque::new();
        core::mem::swap(&mut records, &mut self.records);
        let ghost all = records@;
        let mut taken: Vec<T> = Vec::new();
        while taken.len() < count
            invariant
                count <= all.len(),
                taken@.len() <= count,
                taken@ == all.take(taken@.len() as int),
                records@ == all.skip(taken@.len() as int),
            decreases count - taken.len(),
        {
            let record = records.pop_front().unwrap();
            taken.push(record);
        }
        self.records = records;
        taken
    }
}

/// A provider for records of one signal kind.
pub struct Provider<T> {
    queue: ExportBatch<T>,
    policy: BatchPolicy,
    shut_down: bool,
    dropped: u64,
}

impl<T> View for Provider<T> {
    type V = ProviderView<T>;

    closed spec fn view(&self) -> ProviderView<T> {
        ProviderView {
            queued: self.queue@.records,
            policy: self.policy,
            shut_down: self.shut_down,
            dropped: self.dropped,
        }
    }
}

impl<T> Provider<T> {
    #[verifier::type_invariant]
    pub closed spec fn well_formed(self) -> bool {
        &&& self.queue@.capacity == self.policy.capacity
        &&& self.shut_down ==> self.queue@.records.len() == 0
    }

    /// A running provider with an empty queue.
    pub fn new(policy: BatchPolicy) -> (p: Self)
        ensures
            p@ == (ProviderView { queued: Seq::<T>::empty(), policy, shut_down: false, dropped: 0 }),
    {
        Provider { queue: ExportBatch::new(policy.capacity), policy, shut_down: false, dropped: 0 }
    }

    /// The policy the provider was made with.
    pub fn policy(&self) -> (p: BatchPolicy)
        ensures
            p == self@.policy,
    {
        self.policy
    }

    /// Whether the provider has been shut down.
    pub fn is_shut_down(&self) -> (b: bool)
        ensures
            b == self@.shut_down,
    {
        self.shut_down
    }

    /// The number of records that wait for export.
    pub fn pending(&self) -> (n: usize)
        ensures
            n == self@.queued.len(),
            n <= self@.policy.capacity,
            self@.shut_down ==> n == 0,
    {
        proof {
            use_type_invariant(self);
        }
        self.queue.len()
    }

    /// The number of records lost so far.
    pub fn dropped(&self) -> (n: u64)
        ensures
            n == self@.dropped,
    {
        self.dropped
    }

    /// Offers a record. A running provider with room takes it; otherwise
    /// the record is dropped and counted, and the caller goes on.
    pub fn offer(&mut self, record: T) -> (outcome: Offer)
        ensures
            outcome == offer_outcome(old(self)@),
            final(self)@ == after_offer(old(self)@, record),
    {
        proof {
            use_type_invariant(&*self);
        }
        if self.shut_down {
            self.count_loss();
            return Offer::DroppedShutDown;
        }
        let mut queue: ExportBatch<T> = ExportBatch::new(self.policy.capacity);
        core::mem::swap(&mut queue, &mut self.queue);
        let refused = queue.push(record);
        self.queue = queue;
        match refused {
            None => Offer::Accepted,
            Some(_) => {
                self.count_loss();
                Offer::DroppedFull
            },
        }
    }

    /// Counts one lost record.
    fn count_loss(&mut self)
        ensures
            final(self)@ == (ProviderView { dropped: one_more(old(self)@.dropped), ..old(self)@ }),
    {
        proof {
            use_type_invariant(&*self);
        }
        if self.dropped < u64::MAX {
            self.dropped = self.dropped + 1;
        }
    }

    /// Takes the next batch out of the queue: the oldest records, at most
    /// as many as the policy allows, in the order in which they came.
    pub fn next_batch(&mut self) -> (batch: Vec<T>)
        ensures
            batch@ == next_batch_of(old(self)@),
            final(self)@ == after_batch(old(self)@),
    {
        proof {
            use_type_invariant(&*self);
        }
        let count = if self.queue.len() <= self.policy.max_batch {
            self.queue.len()
        } else {
            self.policy.max_batch
        };
        let mut queue: ExportBatch<T> = ExportBatch::new(self.policy.capacity);
        core::mem::swap(&mut queue, &mut self.queue);
        let batch = queue.take(count);
        self.queue = queue;
        batch
    }

    /// Shuts the provider down and hands out everything that waits, oldest
    /// first. A second shutdown hands out nothing and changes nothing.
    pub fn shutdown(&mut self) -> (flushed: Vec<T>)
        ensures
            flushed@ == flushed_by_shutdown(old(self)@),
            final(self)@ == after_shutdown(old(self)@),
    {
        proof {
            use_type_invariant(&*self);
        }
        let mut queue: ExportBatch<T> = ExportBatch::new(self.policy.capacity);
        core::mem::swap(&mut queue, &mut self.queue);
        self.shut_down = true;
        queue.take(queue.len())
    }
}

/// Something that happens to a provider.
pub enum Step<T> {
    /// A request or background task offers a record.
    Offer(T),
    /// The export loop takes its next batch.
    Export,
    /// The provider is shut down.
    Shutdown,
}

/// A provider together with what has gone in and out of it so far.
pub struct History<T> {
    pub provider: ProviderView<T>,
    /// Every record that was accepted, in the order of acceptance.
    pub accepted: Seq<T>,
    /// Every record that was handed to the exporter, in the order of
    /// handing over.
    pub exported: Seq<T>,
}

/// The history after one more step.
pub open spec fn advance<T>(h: History<T>, step: Step<T>) -> History<T> {
    match step {
        Step::Offer(record) => History {
            provider: after_offer(h.provider, record),
            accepted: if offer_outcome(h.provider) == Offer::Accepted {
                h.accepted.push(record)
            } else {
                h.accepted
            },
            exported: h.exported,
        },
        Step::Export => History {
            provider: after_batch(h.provider),
            accepted: h.accepted,
            exported: h.exported + next_batch_of(h.provider),
        },
        Step::Shutdown => History {
            provider: after_shutdown(h.provider),
            accepted: h.accepted,
            exported: h.exported + flushed_by_shutdown(h.provider),
        },
    }
}

/// The history of a new provider after the given steps.
pub open spec fn history_of<T>(policy: BatchPolicy, steps: Seq<Step<T>>) -> History<T>
    decreases steps.len(),
{
    if steps.len() == 0 {
        History {
            provider: ProviderView { queued: Seq::empty(), policy, shut_down: false, dropped: 0 },
            accepted: Seq::empty(),
            exported: Seq::empty(),
        }
    } else {
        advance(history_of(policy, steps.drop_last()), steps.last())
    }
}

/// Nothing is lost or reordered. At every moment the accepted records are
/// the exported records followed by the waiting ones; the queue never
/// holds more than its capacity; a provider that is shut down holds
/// nothing.
pub proof fn lemma_accepted_is_exported_then_queued<T>(policy: BatchPolicy, steps: Seq<Step<T>>)
    ensures
        ({
            let h = history_of(policy, steps);
            &&& h.accepted == h.exported + h.provider.queued
            &&& h.provider.queued.len() <= policy.capacity
            &&& h.provider.policy == policy
            &&& h.provider.shut_down ==> h.provider.queued.len() == 0
        }),
    decreases steps.len(),
{
    if steps.len() > 0 {
        lemma_accepted_is_exported_then_queued(policy, steps.drop_last());
    }
}

/// No data loss on shutdown. Once a provider has been shut down, every
/// record that it ever accepted has been handed to the exporter, in the
/// order in which it was accepted.
pub proof fn lemma_no_loss_after_shutdown<T>(policy: BatchPolicy, steps: Seq<Step<T>>)
    requires
        history_of(policy, steps).provider.shut_down,
    ensures
        history_of(policy, steps).exported == history_of(policy, steps).accepted,
{
    lemma_accepted_is_exported_then_queued(policy, steps);
}

/// Idempotent shutdown. A second shutdown flushes nothing and leaves the
/// provider as the first one left it.
pub proof fn lemma_shutdown_twice<T>(p: ProviderView<T>)
    ensures
        flushed_by_shutdown(after_shutdown(p)) == Seq::<T>::empty(),
        after_shutdown(after_shutdown(p)) == after_shutdown(p),
{
}

/// After shutdown a provider accepts nothing: an offered record is
/// dropped and counted, and nothing is queued.
pub proof fn lemma_offer_after_shutdown<T>(p: ProviderView<T>, record: T)
    requires
        p.shut_down,
    ensures
        offer_outcome(p) == Offer::DroppedShutDown,
        after_offer(p, record).queued == p.queued,
        after_offer(p, record).dropped == one_more(p.dropped),
        after_offer(p, record).shut_down,
{
}

} // verus!
