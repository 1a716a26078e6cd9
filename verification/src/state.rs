//! The indicator as a state machine over mathematical values, and what
//! holds of it over whole streams of observations.

use vstd::prelude::*;
use crate::fixed_queue::{appended, extended, lemma_extended_is_newest, newest};
use crate::reading::{ROCType, Ratio, Reading};

verus! {

/// The indicator as a mathematical value.
pub struct State {
    /// How many steps back each observation is compared.
    pub period: nat,
    /// The convention in which readings are reported.
    pub result_type: ROCType,
    /// The observations still retained, oldest first.
    pub history: Seq<u64>,
}

impl State {
    /// The state before any observation.
    pub open spec fn fresh(period: nat, result_type: ROCType) -> State {
        State { period, result_type, history: Seq::empty() }
    }

    /// The period is positive and no more than `period` observations are
    /// retained.
    pub open spec fn inv(self) -> bool {
        &&& self.period >= 1
        &&& self.history.len() <= self.period
    }

    /// Whether enough observations are retained to look `period` steps back.
    pub open spec fn warmed_up(self) -> bool {
        self.history.len() >= self.period
    }

    /// The ratio that `input` forms with the observation `period` steps
    /// before it, if that observation is retained.
    pub open spec fn ratio(self, input: u64) -> Option<Ratio> {
        if self.warmed_up() {
            Some(Ratio { current: input, previous: self.history[self.history.len() - self.period] })
        } else {
            None
        }
    }

    /// What is reported when `input` is observed in this state.
    pub open spec fn reading(self, input: u64) -> Option<Reading> {
        match self.ratio(input) {
            Some(ratio) => Some(Reading { ratio, result_type: self.result_type }),
            None => None,
        }
    }

    /// The state after `input` has been observed.
    pub open spec fn record(self, input: u64) -> State {
        State { history: appended(self.history, self.period, input), ..self }
    }

    /// The state with all observations forgotten.
    pub open spec fn cleared(self) -> State {
        State { history: Seq::empty(), ..self }
    }

    /// The state after each of `inputs` has been observed in turn.
    pub open spec fn feed(self, inputs: Seq<u64>) -> State
        decreases inputs.len(),
    {
        if inputs.len() == 0 {
            self
        } else {
            self.feed(inputs.drop_last()).record(inputs.last())
        }
    }

    /// What is reported for `inputs[k]` when `inputs` are observed in turn,
    /// starting in this state.
    pub open spec fn reading_at(self, inputs: Seq<u64>, k: int) -> Option<Reading> {
        self.feed(inputs.take(k)).reading(inputs[k])
    }

    /// Observing a stream leaves the period and the convention as they were
    /// and retains the newest `period` of all observations, those held
    /// before included.
    pub proof fn lemma_feed(self, inputs: Seq<u64>)
        requires
            self.inv(),
        ensures
            self.feed(inputs) == (State {
                history: newest(self.history + inputs, self.period),
                ..self
            }),
            self.feed(inputs).inv(),
    {
        self.lemma_feed_extends(inputs);
        lemma_extended_is_newest(self.history, self.period, inputs);
    }

    proof fn lemma_feed_extends(self, inputs: Seq<u64>)
        ensures
            self.feed(inputs) == (State {
                history: extended(self.history, self.period, inputs),
                ..self
            }),
        decreases inputs.len(),
    {
        if inputs.len() > 0 {
            self.lemma_feed_extends(inputs.drop_last());
        }
    }

    /// The number of retained observations grows by one with each observation
    /// until it reaches the period, and stays there however many follow.
    pub proof fn lemma_history_bounded(self, inputs: Seq<u64>)
        requires
            self.inv(),
        ensures
            self.feed(inputs).history.len() <= self.period,
            self.feed(inputs).history.len() == if self.history.len() + inputs.len() <= self.period {
                self.history.len() + inputs.len()
            } else {
                self.period
            },
    {
        self.lemma_feed(inputs);
    }

    /// In a stream observed from this state, an observation gets a reading
    /// exactly when `period` observations precede it, those already retained
    /// included; the reading sets it against the observation `period` steps
    /// before it.
    pub proof fn lemma_reading_at(self, inputs: Seq<u64>, k: int)
        requires
            self.inv(),
            0 <= k < inputs.len(),
        ensures
            self.reading_at(inputs, k) == if self.history.len() + k >= self.period {
                Some(
                    Reading {
                        ratio: Ratio {
                            current: inputs[k],
                            previous: (self.history + inputs)[self.history.len() + k - self.period],
                        },
                        result_type: self.result_type,
                    },
                )
            } else {
                None
            },
    {
        self.lemma_feed(inputs.take(k));
    }

    /// A fresh indicator reports nothing for the first `period` observations
    /// and a reading for every observation after them: the observation
    /// against the one `period` places before it in the stream.
    pub proof fn lemma_warm_up(period: nat, result_type: ROCType, inputs: Seq<u64>, k: int)
        requires
            period >= 1,
            0 <= k < inputs.len(),
        ensures
            k < period ==> State::fresh(period, result_type).reading_at(inputs, k) is None,
            k >= period ==> State::fresh(period, result_type).reading_at(inputs, k) == Some(
                Reading {
                    ratio: Ratio { current: inputs[k], previous: inputs[k - period] },
                    result_type,
                },
            ),
    {
        let fresh = State::fresh(period, result_type);
        fresh.lemma_reading_at(inputs, k);
        assert(fresh.history + inputs =~= inputs);
    }
}

} // verus!
