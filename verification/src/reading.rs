//! What the indicator reports: which two observations are to be divided, and
//! the convention in which the quotient is to be expressed.

use vstd::prelude::*;

verus! {

/// The convention in which a rate of change is reported. With `ratio` the
/// current observation divided by the earlier one, the reported value is
/// `(ratio - offset) * scale`.
#[derive(Clone, Copy, PartialEq, Eq, Debug)]
pub enum ROCType {
    /// The ratio itself.
    ROCR,
    /// The change as a fraction of the earlier observation: `ratio - 1`.
    ROCP,
    /// The ratio in hundredths: `ratio * 100`.
    ROC100,
    /// The change in percent: `(ratio - 1) * 100`.
    ROC,
}

impl ROCType {
    /// What is subtracted from the ratio before scaling.
    pub open spec fn spec_offset(&self) -> u8 {
        match self {
            ROCType::ROCR | ROCType::ROC100 => 0,
            ROCType::ROCP | ROCType::ROC => 1,
        }
    }

    /// By what the shifted ratio is multiplied.
    pub open spec fn spec_scale(&self) -> u8 {
        match self {
            ROCType::ROCR | ROCType::ROCP => 1,
            ROCType::ROC100 | ROCType::ROC => 100,
        }
    }

    /// The reported value for `ratio`, in exact arithmetic.
    pub open spec fn value(&self, ratio: real) -> real {
        (ratio - self.spec_offset() as real) * (self.spec_scale() as real)
    }

    /// What is subtracted from the ratio before scaling: 0 or 1.
    #[verifier::when_used_as_spec(spec_offset)]
    pub fn offset(&self) -> (offset: u8)
        ensures
            offset == self.spec_offset(),
    {
        match self {
            ROCType::ROCR | ROCType::ROC100 => 0,
            ROCType::ROCP | ROCType::ROC => 1,
        }
    }

    /// By what the shifted ratio is multiplied: 1 or 100.
    #[verifier::when_used_as_spec(spec_scale)]
    pub fn scale(&self) -> (scale: u8)
        ensures
            scale == self.spec_scale(),
    {
        match self {
            ROCType::ROCR | ROCType::ROCP => 1,
            ROCType::ROC100 | ROCType::ROC => 100,
        }
    }
}

/// In exact arithmetic the four conventions are tied to one another through
/// the plain ratio: the fraction is the ratio less one, the hundredths are
/// the ratio times a hundred, and the percentage is the fraction times a
/// hundred.
pub proof fn lemma_conventions_agree(ratio: real)
    ensures
        ROCType::ROCR.value(ratio) == ratio,
        ROCType::ROCP.value(ratio) == ROCType::ROCR.value(ratio) - 1real,
        ROCType::ROC100.value(ratio) == ROCType::ROCR.value(ratio) * 100real,
        ROCType::ROC.value(ratio) == (ROCType::ROCR.value(ratio) - 1real) * 100real,
{
    assert(ROCType::ROCR.value(ratio) == (ratio - 0real) * 1real);
    assert(ROCType::ROCP.value(ratio) == (ratio - 1real) * 1real);
    assert(ROCType::ROC100.value(ratio) == (ratio - 0real) * 100real);
    assert(ROCType::ROC.value(ratio) == (ratio - 1real) * 100real);
}

/// A pending division: the observation just made over the one made `period`
/// steps before it.
#[derive(Clone, Copy, PartialEq, Eq, Debug)]
pub struct Ratio {
    pub current: u64,
    pub previous: u64,
}

/// What the indicator reports for one observation: the ratio to evaluate and
/// the convention in which its value is to be expressed.
#[derive(Clone, Copy, PartialEq, Eq, Debug)]
pub struct Reading {
    pub ratio: Ratio,
    pub result_type: ROCType,
}

} // verus!
