use vstd::prelude::*;

verus! {

/// A countdown of the model calls that one conversation may still make.
#[derive(Clone, Copy, Debug)]
pub struct IterationBudget {
    remaining: usize,
}

impl View for IterationBudget {
    type V = nat;

    /// The number of iterations that are still available.
    closed spec fn view(&self) -> nat {
        self.remaining as nat
    }
}

impl IterationBudget {
    /// A budget that grants `max_iterations` iterations.
    pub fn new(max_iterations: usize) -> (b: Self)
        ensures
            b@ == max_iterations,
    {
        IterationBudget { remaining: max_iterations }
    }

    /// Takes one iteration from the budget. Returns `false`, and leaves the
    /// budget as it was, when nothing is left.
    pub fn consume(&mut self) -> (granted: bool)
        ensures
            granted == (old(self)@ > 0),
            granted ==> final(self)@ == old(self)@ - 1,
            !granted ==> final(self)@ == old(self)@,
    {
        if self.remaining > 0 {
            self.remaining = self.remaining - 1;
            true
        } else {
            false
        }
    }

    /// A budget never holds more iterations than a `usize` counts.
    pub proof fn lemma_bounded(&self)
        ensures
            self@ <= usize::MAX,
    {
    }

    /// Withdraws every iteration that is left, so that the next check of
    /// the budget ends the conversation.
    pub fn cancel(&mut self)
        ensures
            final(self)@ == 0,
    {
        self.remaining = 0;
    }

    /// The number of iterations that are still available.
    pub fn remaining(&self) -> (n: usize)
        ensures
            n == self@,
    {
        self.remaining
    }
}

} // verus!
