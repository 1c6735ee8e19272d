use vstd::prelude::*;

verus! {

/// A click counter: a single count that each activation raises by one.
#[derive(Clone, Copy, Debug, PartialEq, Eq)]
pub struct Counter {
    pub value: u64,
}

impl Counter {
    /// The counter as it stands before any activation.
    pub open spec fn initial() -> Counter {
        Counter { value: 0 }
    }

    /// The counter after one activation.
    pub open spec fn next(self) -> Counter {
        Counter { value: (self.value + 1) as u64 }
    }

    /// The counter after `n` activations, starting from `self`.
    pub open spec fn after(self, n: nat) -> Counter
        decreases n,
    {
        if n == 0 {
            self
        } else {
            self.after((n - 1) as nat).next()
        }
    }

    pub fn new() -> (r: Counter)
        ensures
            r == Counter::initial(),
    {
        Counter { value: 0 }
    }

    /// Records one activation; the counter is replaced by its successor.
    pub fn incremented(self) -> (r: Counter)
        requires
            self.value < u64::MAX,
        ensures
            r == self.next(),
            r.value == self.value + 1,
    {
        Counter { value: self.value + 1 }
    }

    pub fn value(&self) -> (r: u64)
        ensures
            r == self.value,
    {
        self.value
    }
}

impl Default for Counter {
    fn default() -> (r: Counter)
        ensures
            r == Counter::initial(),
    {
        Counter::new()
    }
}

/// A fresh counter that has been activated `n` times holds the value `n`.
pub proof fn lemma_counter_counts_activations(n: nat)
    requires
        n <= u64::MAX,
    ensures
        Counter::initial().after(n).value == n,
    decreases n,
{
    if n > 0 {
        lemma_counter_counts_activations((n - 1) as nat);
    }
}

} // verus!
