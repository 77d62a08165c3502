use vstd::prelude::*;

verus! {

/// Single-byte enumeration. The reserved byte 0 means null/not-set, and
/// any byte outside the defined set decodes to the null variant rather
/// than failing, for forward compatibility with schema additions.
#[allow(non_camel_case_types)]
#[derive(Clone, Copy, Debug, PartialEq, Eq, PartialOrd, Ord, Hash, Structural)]
pub enum OrderSide {
    BUY,
    SELL,
    NullVal,
}

impl OrderSide {
    /// The wire byte of each variant.
    pub open spec fn spec_to_raw(self) -> u8 {
        match self {
            OrderSide::BUY => 49,
            OrderSide::SELL => 50,
            OrderSide::NullVal => 0,
        }
    }

    /// Whether a wire byte is in the defined set of this enumeration.
    pub open spec fn spec_is_defined(v: u8) -> bool {
        v == 49 || v == 50
    }

    /// The variant a wire byte decodes to; a byte outside the defined
    /// set yields the null variant.
    pub open spec fn spec_from_raw(v: u8) -> OrderSide {
        if v == 49 {
            OrderSide::BUY
        } else if v == 50 {
            OrderSide::SELL
        } else {
            OrderSide::NullVal
        }
    }

    #[verifier::when_used_as_spec(spec_to_raw)]
    pub fn to_raw(self) -> (r: u8)
        ensures
            r == self.spec_to_raw(),
    {
        match self {
            OrderSide::BUY => 49,
            OrderSide::SELL => 50,
            OrderSide::NullVal => 0,
        }
    }

    pub fn from_raw(v: u8) -> (r: OrderSide)
        ensures
            r == OrderSide::spec_from_raw(v),
    {
        if v == 49 {
            OrderSide::BUY
        } else if v == 50 {
            OrderSide::SELL
        } else {
            OrderSide::NullVal
        }
    }
}

impl Default for OrderSide {
    fn default() -> (r: Self)
        ensures
            r == OrderSide::NullVal,
    {
        OrderSide::NullVal
    }
}

/// Round-trip and unknown-byte tolerance: every variant survives
/// encode-then-decode, and every byte outside the defined set decodes
/// to the null variant, never an error.
pub proof fn lemma_order_side_raw(x: OrderSide, v: u8)
    ensures
        OrderSide::spec_from_raw(x.spec_to_raw()) == x,
        !OrderSide::spec_is_defined(v) ==> OrderSide::spec_from_raw(v) == OrderSide::NullVal,
{
}

} // verus!
