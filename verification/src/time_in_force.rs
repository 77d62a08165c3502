use vstd::prelude::*;

verus! {

/// Single-byte enumeration. The reserved byte 0 means null/not-set, and
/// any byte outside the defined set decodes to the null variant rather
/// than failing, for forward compatibility with schema additions.
#[allow(non_camel_case_types)]
#[derive(Clone, Copy, Debug, PartialEq, Eq, PartialOrd, Ord, Hash, Structural)]
pub enum TimeInForce {
    DAY,
    GTC,
    IOC,
    FOK,
    GTD,
    NullVal,
}

impl TimeInForce {
    /// The wire byte of each variant.
    pub open spec fn spec_to_raw(self) -> u8 {
        match self {
            TimeInForce::DAY => 48,
            TimeInForce::GTC => 49,
            TimeInForce::IOC => 51,
            TimeInForce::FOK => 52,
            TimeInForce::GTD => 54,
            TimeInForce::NullVal => 0,
        }
    }

    /// Whether a wire byte is in the defined set of this enumeration.
    pub open spec fn spec_is_defined(v: u8) -> bool {
        v == 48 || v == 49 || v == 51 || v == 52 || v == 54
    }

    /// The variant a wire byte decodes to; a byte outside the defined
    /// set yields the null variant.
    pub open spec fn spec_from_raw(v: u8) -> TimeInForce {
        if v == 48 {
            TimeInForce::DAY
        } else if v == 49 {
            TimeInForce::GTC
        } else if v == 51 {
            TimeInForce::IOC
        } else if v == 52 {
            TimeInForce::FOK
        } else if v == 54 {
            TimeInForce::GTD
        } else {
            TimeInForce::NullVal
        }
    }

    #[verifier::when_used_as_spec(spec_to_raw)]
    pub fn to_raw(self) -> (r: u8)
        ensures
            r == self.spec_to_raw(),
    {
        match self {
            TimeInForce::DAY => 48,
            TimeInForce::GTC => 49,
            TimeInForce::IOC => 51,
            TimeInForce::FOK => 52,
            TimeInForce::GTD => 54,
            TimeInForce::NullVal => 0,
        }
    }

    pub fn from_raw(v: u8) -> (r: TimeInForce)
        ensures
            r == TimeInForce::spec_from_raw(v),
    {
        if v == 48 {
            TimeInForce::DAY
        } else if v == 49 {
            TimeInForce::GTC
        } else if v == 51 {
            TimeInForce::IOC
        } else if v == 52 {
            TimeInForce::FOK
        } else if v == 54 {
            TimeInForce::GTD
        } else {
            TimeInForce::NullVal
        }
    }
}

impl Default for TimeInForce {
    fn default() -> (r: Self)
        ensures
            r == TimeInForce::NullVal,
    {
        TimeInForce::NullVal
    }
}

/// Round-trip and unknown-byte tolerance: every variant survives
/// encode-then-decode, and every byte outside the defined set decodes
/// to the null variant, never an error.
pub proof fn lemma_time_in_force_raw(x: TimeInForce, v: u8)
    ensures
        TimeInForce::spec_from_raw(x.spec_to_raw()) == x,
        !TimeInForce::spec_is_defined(v) ==> TimeInForce::spec_from_raw(v) == TimeInForce::NullVal,
{
}

} // verus!
