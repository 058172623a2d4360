//! Bounded metric history: a fixed-capacity, insertion-ordered time series.
//! On overflow the oldest sample is evicted, so the history always holds the
//! most recently pushed samples, oldest first.

use vstd::prelude::*;

verus! {

/// One instantaneous reading of a metric: when it was taken and its value.
#[derive(Debug, Clone, Copy, PartialEq, Eq, Structural)]
pub struct MetricSample {
    pub timestamp_ms: u64,
    pub value: u64,
}

/// A bounded, insertion-ordered sequence of samples. `len() <= capacity`
/// always holds; pushing beyond the capacity evicts the oldest sample.
pub struct MetricHistory {
    samples: Vec<MetricSample>,
    capacity: usize,
}

/// The stored sequence after one push into a history with bound `cap`:
/// the sample goes to the back, and the front is evicted if the bound
/// is now exceeded.
pub open spec fn push_model(s: Seq<MetricSample>, cap: nat, x: MetricSample) -> Seq<MetricSample> {
    let grown = s.push(x);
    if grown.len() > cap {
        grown.skip(1)
    } else {
        grown
    }
}

/// The stored sequence after pushing `inputs`, in order, into an empty
/// history with bound `cap`.
pub open spec fn history_of(cap: nat, inputs: Seq<MetricSample>) -> Seq<MetricSample>
    decreases inputs.len(),
{
    if inputs.len() == 0 {
        Seq::empty()
    } else {
        push_model(history_of(cap, inputs.drop_last()), cap, inputs.last())
    }
}

/// How many of `n` pushed samples a history with bound `cap` retains.
pub open spec fn retained(cap: nat, n: nat) -> nat {
    if n <= cap {
        n
    } else {
        cap
    }
}

impl View for MetricHistory {
    type V = Seq<MetricSample>;

    closed spec fn view(&self) -> Seq<MetricSample> {
        self.samples@
    }
}

impl MetricHistory {
    /// The current bound on the number of retained samples.
    pub closed spec fn cap(&self) -> nat {
        self.capacity as nat
    }

    /// The history never holds more samples than its capacity.
    pub open spec fn wf(&self) -> bool {
        self@.len() <= self.cap()
    }

    /// An empty history that will retain at most `capacity` samples.
    pub fn new(capacity: usize) -> (h: MetricHistory)
        ensures
            h@ == Seq::<MetricSample>::empty(),
            h.cap() == capacity,
            h.wf(),
    {
        MetricHistory { samples: Vec::new(), capacity }
    }

    pub fn len(&self) -> (n: usize)
        ensures
            n == self@.len(),
    {
        self.samples.len()
    }

    pub fn is_empty(&self) -> (e: bool)
        ensures
            e == (self@.len() == 0),
    {
        self.samples.len() == 0
    }

    pub fn capacity(&self) -> (c: usize)
        ensures
            c == self.cap(),
    {
        self.capacity
    }

    /// The sample at position `i`, oldest first.
    pub fn get(&self, i: usize) -> (s: MetricSample)
        requires
            i < self@.len(),
        ensures
            s == self@[i as int],
    {
        self.samples[i]
    }

    /// The stored samples, oldest first.
    pub fn samples(&self) -> (v: &Vec<MetricSample>)
        ensures
            v@ == self@,
    {
        &self.samples
    }

    /// Appends `sample`; if the history is full, the oldest sample is
    /// evicted first. Never fails.
    pub fn push(&mut self, sample: MetricSample)
        requires
            old(self).wf(),
        ensures
            final(self).cap() == old(self).cap(),
            final(self).wf(),
            final(self)@ == push_model(old(self)@, old(self).cap(), sample),
    {
        self.samples.push(sample);
        if self.samples.len() > self.capacity {
            self.samples.remove(0);
            assert(self@ =~= push_model(old(self)@, old(self).cap(), sample));
        }
    }

    /// Changes the bound. Shrinking below the current length evicts the
    /// oldest samples until exactly `new_cap` remain; growing keeps every
    /// stored sample and only raises the ceiling.
    pub fn set_capacity(&mut self, new_cap: usize)
        ensures
            final(self).cap() == new_cap,
            final(self).wf(),
            old(self)@.len() <= new_cap ==> final(self)@ == old(self)@,
            old(self)@.len() > new_cap ==> final(self)@ == old(self)@.skip(
                old(self)@.len() - new_cap,
            ),
    {
        proof {
            assert(old(self)@.skip(0) =~= old(self)@);
        }
        while self.samples.len() > new_cap
            invariant
                self.samples@.len() <= old(self)@.len(),
                new_cap <= self.samples@.len() || self.samples@.len() == old(self)@.len(),
                self.samples@ == old(self)@.skip(old(self)@.len() - self.samples@.len()),
            decreases self.samples@.len(),
        {
            self.samples.remove(0);
            assert(self.samples@ =~= old(self)@.skip(old(self)@.len() - self.samples@.len()));
        }
        self.capacity = new_cap;
        assert(old(self)@.len() <= new_cap ==> self.samples@ =~= old(self)@);
    }
}

/// After any sequence of pushes into an empty history with bound `cap`,
/// the history holds exactly the last `min(n, cap)` of the `n` pushed
/// samples, in push order.
pub proof fn lemma_history_window(cap: nat, inputs: Seq<MetricSample>)
    ensures
        history_of(cap, inputs).len() == retained(cap, inputs.len()),
        history_of(cap, inputs) == inputs.skip(inputs.len() - retained(cap, inputs.len())),
    decreases inputs.len(),
{
    if inputs.len() == 0 {
        assert(history_of(cap, inputs) =~= inputs.skip(0));
    } else {
        let pre = inputs.drop_last();
        lemma_history_window(cap, pre);
        assert(history_of(cap, inputs) =~= inputs.skip(
            inputs.len() - retained(cap, inputs.len()),
        ));
    }
}

} // verus!
