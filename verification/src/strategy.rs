use vstd::prelude::*;

verus! {

/// Single-byte enumeration. The reserved byte 0 means null/not-set, and
/// any byte outside the defined set decodes to the null variant rather
/// than failing, for forward compatibility with schema additions.
#[allow(non_camel_case_types)]
#[derive(Clone, Copy, Debug, PartialEq, Eq, PartialOrd, Ord, Hash, Structural)]
pub enum Strategy {
    SIMULATOR,
    VENUE,
    SWEEPER,
    LIMIT_SNIPER,
    STOP_LOSS,
    TWAP,
    VWAP,
    NullVal,
}

impl Strategy {
    /// The wire byte of each variant.
    pub open spec fn spec_to_raw(self) -> u8 {
        match self {
            Strategy::SIMULATOR => 49,
            Strategy::VENUE => 50,
            Strategy::SWEEPER => 51,
            Strategy::LIMIT_SNIPER => 52,
            Strategy::STOP_LOSS => 53,
            Strategy::TWAP => 54,
            Strategy::VWAP => 55,
            Strategy::NullVal => 0,
        }
    }

    /// Whether a wire byte is in the defined set of this enumeration.
    pub open spec fn spec_is_defined(v: u8) -> bool {
        v == 49 || v == 50 || v == 51 || v == 52 || v == 53 || v == 54 || v == 55
    }

    /// The variant a wire byte decodes to; a byte outside the defined
    /// set yields the null variant.
    pub open spec fn spec_from_raw(v: u8) -> Strategy {
        if v == 49 {
            Strategy::SIMULATOR
        } else if v == 50 {
            Strategy::VENUE
        } else if v == 51 {
            Strategy::SWEEPER
        } else if v == 52 {
            Strategy::LIMIT_SNIPER
        } else if v == 53 {
            Strategy::STOP_LOSS
        } else if v == 54 {
            Strategy::TWAP
        } else if v == 55 {
            Strategy::VWAP
        } else {
            Strategy::NullVal
        }
    }

    #[verifier::when_used_as_spec(spec_to_raw)]
    pub fn to_raw(self) -> (r: u8)
        ensures
            r == self.spec_to_raw(),
    {
        match self {
            Strategy::SIMULATOR => 49,
            Strategy::VENUE => 50,
            Strategy::SWEEPER => 51,
            Strategy::LIMIT_SNIPER => 52,
            Strategy::STOP_LOSS => 53,
            Strategy::TWAP => 54,
            Strategy::VWAP => 55,
            Strategy::NullVal => 0,
        }
    }

    pub fn from_raw(v: u8) -> (r: Strategy)
        ensures
            r == Strategy::spec_from_raw(v),
    {
        if v == 49 {
            Strategy::SIMULATOR
        } else if v == 50 {
            Strategy::VENUE
        } else if v == 51 {
            Strategy::SWEEPER
        } else if v == 52 {
            Strategy::LIMIT_SNIPER
        } else if v == 53 {
            Strategy::STOP_LOSS
        } else if v == 54 {
            Strategy::TWAP
        } else if v == 55 {
            Strategy::VWAP
        } else {
            Strategy::NullVal
        }
    }
}

impl Default for Strategy {
    fn default() -> (r: Self)
        ensures
            r == Strategy::NullVal,
    {
        Strategy::NullVal
    }
}

/// Round-trip and unknown-byte tolerance: every variant survives
/// encode-then-decode, and every byte outside the defined set decodes
/// to the null variant, never an error.
pub proof fn lemma_strategy_raw(x: Strategy, v: u8)
    ensures
        Strategy::spec_from_raw(x.spec_to_raw()) == x,
        !Strategy::spec_is_defined(v) ==> Strategy::spec_from_raw(v) == Strategy::NullVal,
{
}

} // verus!
