//! The metrics collector: a fixed set of named counters, read on a fixed
//! interval.

use vstd::prelude::*;

verus! {

/// Seconds between two collections where nothing else is configured.
pub const COLLECT_INTERVAL_SECS: u64 = 10;

/// What a counter gained since the last collection.
#[derive(Debug)]
pub struct MetricDelta {
    pub name: String,
    pub delta: u64,
}

/// A delta as specifications see it: the counter's name and its gain.
pub type DeltaView = (Seq<char>, u64);

impl View for MetricDelta {
    type V = DeltaView;

    open spec fn view(&self) -> DeltaView {
        (self.name@, self.delta)
    }
}

/// The deltas of a list, each by its view.
pub open spec fn deltas_of(v: Seq<MetricDelta>) -> Seq<DeltaView> {
    v.map_values(|d: MetricDelta| d@)
}

/// Whether some counter has the name `name`.
pub open spec fn has_counter(counters: Seq<DeltaView>, name: Seq<char>) -> bool {
    exists|i: int| 0 <= i < counters.len() && (#[trigger] counters[i]).0 == name
}

/// The sum of two gains; it stops at the largest number a gain can hold.
pub open spec fn capped_sum(a: u64, b: u64) -> u64 {
    if a + b <= u64::MAX {
        (a + b) as u64
    } else {
        u64::MAX
    }
}

/// The counters with every gain set back to zero.
pub open spec fn reset(counters: Seq<DeltaView>) -> Seq<DeltaView> {
    counters.map_values(|c: DeltaView| (c.0, 0u64))
}

/// Monotonic counters, registered once each.
pub struct MetricsCollector {
    entries: Vec<(String, u64)>,
}

/// The counters held in a vector of names and gains.
pub open spec fn counters_of(v: Seq<(String, u64)>) -> Seq<DeltaView> {
    v.map_values(|e: (String, u64)| (e.0@, e.1))
}

/// No name occurs twice.
pub open spec fn distinct_names(counters: Seq<DeltaView>) -> bool {
    forall|i: int, j: int| 0 <= i < j < counters.len() ==> (#[trigger] counters[i]).0 != (#[trigger] counters[j]).0
}

impl MetricsCollector {
    #[verifier::type_invariant]
    pub closed spec fn well_formed(self) -> bool {
        distinct_names(counters_of(self.entries@))
    }

    /// The counters in the order of registration, each with what it has
    /// gained since the last collection.
    pub closed spec fn counters(&self) -> Seq<DeltaView> {
        counters_of(self.entries@)
    }

    /// A collector without counters.
    pub fn new() -> (c: Self)
        ensures
            c.counters() == Seq::<DeltaView>::empty(),
    {
        let c = MetricsCollector { entries: Vec::new() };
        c
    }

    /// The number of counters.
    pub fn len(&self) -> (n: usize)
        ensures
            n == self.counters().len(),
    {
        self.entries.len()
    }

    /// The position of the counter named `name`.
    pub fn find(&self, name: &str) -> (found: Option<usize>)
        ensures
            found is Some <==> has_counter(self.counters(), name@),
            found is Some ==> found->0 < self.counters().len() && self.counters()[found->0 as int].0 == name@,
    {
        let wanted = name.to_owned();
        let mut i: usize = 0;
        while i < self.entries.len()
            invariant
                i <= self.entries.len(),
                wanted@ == name@,
                forall|j: int| 0 <= j < i ==> (#[trigger] self.counters()[j]).0 != name@,
            decreases self.entries.len() - i,
        {
            if self.entries[i].0 == wanted {
                assert(self.counters()[i as int].0 == name@);
                return Some(i);
            }
            i += 1;
        }
        None
    }

    /// Registers a counter and gives its position. A name can be
    /// registered once: for a name that is taken nothing changes.
    pub fn register(&mut self, name: &str) -> (position: Option<usize>)
        ensures
            has_counter(old(self).counters(), name@) ==> position is None && final(self).counters() == old(
                self,
            ).counters(),
            !has_counter(old(self).counters(), name@) ==> position == Some(old(self).counters().len() as usize)
                && final(self).counters() == old(self).counters().push((name@, 0u64)),
    {
        proof {
            use_type_invariant(&*self);
        }
        if self.find(name).is_some() {
            return None;
        }
        let ghost before = self.counters();
        let position = self.entries.len();
        let mut entries: Vec<(String, u64)> = Vec::new();
        core::mem::swap(&mut entries, &mut self.entries);
        entries.push((name.to_owned(), 0));
        let ghost after = counters_of(entries@);
        assert forall|i: int, j: int| 0 <= i < j < after.len() implies (#[trigger] after[i]).0 != (
        #[trigger] after[j]).0 by {
            if j == after.len() - 1 {
                assert(before[i].0 != name@);
            } else {
                assert(before[i].0 != before[j].0);
            }
        }
        self.entries = entries;
        Some(position)
    }

    /// Adds `amount` to the counter at `position`. Without such a counter
    /// nothing changes and the answer is `false`.
    pub fn add(&mut self, position: usize, amount: u64) -> (done: bool)
        ensures
            done == (position < old(self).counters().len()),
            done ==> final(self).counters() == old(self).counters().update(
                position as int,
                (
                    old(self).counters()[position as int].0,
                    capped_sum(old(self).counters()[position as int].1, amount),
                ),
            ),
            !done ==> final(self).counters() == old(self).counters(),
    {
        proof {
            use_type_invariant(&*self);
        }
        if position >= self.entries.len() {
            return false;
        }
        let ghost before = self.counters();
        let gain = self.entries[position].1;
        let sum = if amount <= u64::MAX - gain {
            gain + amount
        } else {
            u64::MAX
        };
        let name = self.entries[position].0.clone();
        let mut entries: Vec<(String, u64)> = Vec::new();
        core::mem::swap(&mut entries, &mut self.entries);
        entries.set(position, (name, sum));
        let ghost after = counters_of(entries@);
        assert forall|i: int, j: int| 0 <= i < j < after.len() implies (#[trigger] after[i]).0 != (
        #[trigger] after[j]).0 by {
            assert(before[i].0 != before[j].0);
        }
        self.entries = entries;
        true
    }

    /// Reads what every counter has gained since the last collection and
    /// sets the gains back to zero.
    pub fn collect(&mut self) -> (deltas: Vec<MetricDelta>)
        ensures
            deltas_of(deltas@) == old(self).counters(),
            final(self).counters() == reset(old(self).counters()),
    {
        proof {
            use_type_invariant(&*self);
        }
        let ghost before = self.counters();
        let mut entries: Vec<(String, u64)> = Vec::new();
        let mut deltas: Vec<MetricDelta> = Vec::new();
        let mut i: usize = 0;
        while i < self.entries.len()
            invariant
                i <= self.entries.len(),
                before == counters_of(self.entries@),
                deltas@.len() == i,
                entries@.len() == i,
                forall|j: int| 0 <= j < i ==> (#[trigger] deltas@[j])@ == before[j],
                forall|j: int| 0 <= j < i ==> (#[trigger] entries@[j]).0@ == before[j].0 && entries@[j].1 == 0,
            decreases self.entries.len() - i,
        {
            deltas.push(MetricDelta { name: self.entries[i].0.clone(), delta: self.entries[i].1 });
            entries.push((self.entries[i].0.clone(), 0));
            i += 1;
        }
        self.entries = entries;
        deltas
    }
}

} // verus!
