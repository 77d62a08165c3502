use vstd::prelude::*;

verus! {

/// Single-byte enumeration. The reserved byte 0 means null/not-set, and
/// any byte outside the defined set decodes to the null variant rather
/// than failing, for forward compatibility with schema additions.
#[allow(non_camel_case_types)]
#[derive(Clone, Copy, Debug, PartialEq, Eq, PartialOrd, Ord, Hash, Structural)]
pub enum OrderType {
    MARKET,
    LIMIT,
    NullVal,
}

impl OrderType {
    /// The wire byte of each variant.
    pub open spec fn spec_to_raw(self) -> u8 {
        match self {
            OrderType::MARKET => 49,
            OrderType::LIMIT => 50,
            OrderType::NullVal => 0,
        }
    }

    /// Whether a wire byte is in the defined set of this enumeration.
    pub open spec fn spec_is_defined(v: u8) -> bool {
        v == 49 || v == 50
    }

    /// The variant a wire byte decodes to; a byte outside the defined
    /// set yields the null variant.
    pub open spec fn spec_from_raw(v: u8) -> OrderType {
        if v == 49 {
            OrderType::MARKET
        } else if v == 50 {
            OrderType::LIMIT
        } else {
            OrderType::NullVal
        }
    }

    #[verifier::when_used_as_spec(spec_to_raw)]
    pub fn to_raw(self) -> (r: u8)
        ensures
            r == self.spec_to_raw(),
    {
        match self {
            OrderType::MARKET => 49,
            OrderType::LIMIT => 50,
            OrderType::NullVal => 0,
        }
    }

    pub fn from_raw(v: u8) -> (r: OrderType)
        ensures
            r == OrderType::spec_from_raw(v),
    {
        if v == 49 {
            OrderType::MARKET
        } else if v == 50 {
            OrderType::LIMIT
        } else {
            OrderType::NullVal
        }
    }
}

impl Default for OrderType {
    fn default() -> (r: Self)
        ensures
            r == OrderType::NullVal,
    {
        OrderType::NullVal
    }
}

/// Round-trip and unknown-byte tolerance: every variant survives
/// encode-then-decode, and every byte outside the defined set decodes
/// to the null variant, never an error.
pub proof fn lemma_order_type_raw(x: OrderType, v: u8)
    ensures
        OrderType::spec_from_raw(x.spec_to_raw()) == x,
        !OrderType::spec_is_defined(v) ==> OrderType::spec_from_raw(v) == OrderType::NullVal,
{
}

} // verus!
