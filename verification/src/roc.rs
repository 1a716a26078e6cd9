//! The rate-of-change indicator: each observation is set against the one
//! recorded a fixed number of steps before it.
//!
//! Observations are carried as opaque 64-bit patterns. The indicator decides
//! which two observations are to be divided and how the quotient is to be
//! shifted and scaled; it performs no arithmetic on the observations itself.

use vstd::prelude::*;
use crate::fixed_queue::FixedQueue;
use crate::reading::{ROCType, Ratio, Reading};
use crate::state::State;

verus! {

/// A rate-of-change indicator over a stream of observations.
pub struct ROC {
    history: FixedQueue<u64>,
    period: u32,
    result_type: ROCType,
}

impl View for ROC {
    type V = State;

    closed spec fn view(&self) -> State {
        State {
            period: self.period as nat,
            result_type: self.result_type,
            history: self.history@,
        }
    }
}

impl ROC {
    #[verifier::type_invariant]
    spec fn well_formed(&self) -> bool {
        self.history.spec_capacity() == self.period
    }

    /// An indicator that compares each observation with the one `period`
    /// steps before it. Without a `result_type` it reports the change in
    /// percent.
    pub fn new(period: u32, result_type: Option<ROCType>) -> (roc: ROC)
        requires
            period >= 1,
        ensures
            roc@ == State::fresh(
                period as nat,
                match result_type {
                    Some(chosen) => chosen,
                    None => ROCType::ROC,
                },
            ),
    {
        let result_type = match result_type {
            Some(chosen) => chosen,
            None => ROCType::ROC,
        };
        ROC { history: FixedQueue::new(period), period, result_type }
    }

    /// The number of observations currently retained: it grows by one with
    /// each observation until it reaches the period.
    pub fn size(&self) -> (size: usize)
        ensures
            self@.inv(),
            size == self@.history.len(),
    {
        proof {
            use_type_invariant(self);
        }
        self.history.size()
    }

    /// The ratio that `input` would form if it were observed now; `None`
    /// while fewer than `period` observations have been recorded.
    pub fn calc(&self, input: u64) -> (ratio: Option<Ratio>)
        ensures
            self@.inv(),
            ratio == self@.ratio(input),
    {
        proof {
            use_type_invariant(self);
        }
        let size: usize = self.history.size();
        let lookback: i64 = size as i64 - self.period as i64;
        match self.history.at(lookback) {
            None => None,
            Some(previous) => Some(Ratio { current: input, previous }),
        }
    }

    /// Observes `input`: reports its reading against the observation
    /// `period` steps before it, then records it.
    pub fn next(&mut self, input: u64) -> (reading: Option<Reading>)
        ensures
            old(self)@.inv(),
            final(self)@.inv(),
            reading == old(self)@.reading(input),
            final(self)@ == old(self)@.record(input),
    {
        proof {
            use_type_invariant(&*self);
        }
        let reading = match self.calc(input) {
            None => None,
            Some(ratio) => Some(Reading { ratio, result_type: self.result_type }),
        };
        // The history is taken out while it changes, an empty one of the
        // same capacity standing in for it, so that the indicator is well
        // formed at every step.
        let mut history: FixedQueue<u64> = FixedQueue::new(self.period);
        core::mem::swap(&mut history, &mut self.history);
        history.add(input);
        self.history = history;
        reading
    }

    /// Forgets every observation, so that the indicator warms up anew.
    pub fn reset(&mut self)
        ensures
            final(self)@ == old(self)@.cleared(),
            final(self)@.inv(),
    {
        proof {
            use_type_invariant(&*self);
        }
        let mut history: FixedQueue<u64> = FixedQueue::new(self.history.capacity());
        core::mem::swap(&mut history, &mut self.history);
        history.clear();
        self.history = history;
    }
}

} // verus!
