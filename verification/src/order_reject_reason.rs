use vstd::prelude::*;

verus! {

/// Single-byte enumeration. The reserved byte 0 means null/not-set, and
/// any byte outside the defined set decodes to the null variant rather
/// than failing, for forward compatibility with schema additions.
#[allow(non_camel_case_types)]
#[derive(Clone, Copy, Debug, PartialEq, Eq, PartialOrd, Ord, Hash, Structural)]
pub enum OrderRejectReason {
    BROKER_OPTION,
    UNKNOWN_SYMBOL,
    EXCHANGE_CLOSED,
    ORDER_EXCEEDS_LIMIT,
    TOO_LATE_TO_ENTER,
    UNKNOWN_ORDER,
    DUPLICATE_ORDER,
    STALE_ORDER,
    NullVal,
}

impl OrderRejectReason {
    /// The wire byte of each variant.
    pub open spec fn spec_to_raw(self) -> u8 {
        match self {
            OrderRejectReason::BROKER_OPTION => 48,
            OrderRejectReason::UNKNOWN_SYMBOL => 49,
            OrderRejectReason::EXCHANGE_CLOSED => 50,
            OrderRejectReason::ORDER_EXCEEDS_LIMIT => 51,
            OrderRejectReason::TOO_LATE_TO_ENTER => 52,
            OrderRejectReason::UNKNOWN_ORDER => 53,
            OrderRejectReason::DUPLICATE_ORDER => 54,
            OrderRejectReason::STALE_ORDER => 56,
            OrderRejectReason::NullVal => 0,
        }
    }

    /// Whether a wire byte is in the defined set of this enumeration.
    pub open spec fn spec_is_defined(v: u8) -> bool {
        v == 48 || v == 49 || v == 50 || v == 51 || v == 52 || v == 53 || v == 54 || v == 56
    }

    /// The variant a wire byte decodes to; a byte outside the defined
    /// set yields the null variant.
    pub open spec fn spec_from_raw(v: u8) -> OrderRejectReason {
        if v == 48 {
            OrderRejectReason::BROKER_OPTION
        } else if v == 49 {
            OrderRejectReason::UNKNOWN_SYMBOL
        } else if v == 50 {
            OrderRejectReason::EXCHANGE_CLOSED
        } else if v == 51 {
            OrderRejectReason::ORDER_EXCEEDS_LIMIT
        } else if v == 52 {
            OrderRejectReason::TOO_LATE_TO_ENTER
        } else if v == 53 {
            OrderRejectReason::UNKNOWN_ORDER
        } else if v == 54 {
            OrderRejectReason::DUPLICATE_ORDER
        } else if v == 56 {
            OrderRejectReason::STALE_ORDER
        } else {
            OrderRejectReason::NullVal
        }
    }

    #[verifier::when_used_as_spec(spec_to_raw)]
    pub fn to_raw(self) -> (r: u8)
        ensures
            r == self.spec_to_raw(),
    {
        match self {
            OrderRejectReason::BROKER_OPTION => 48,
            OrderRejectReason::UNKNOWN_SYMBOL => 49,
            OrderRejectReason::EXCHANGE_CLOSED => 50,
            OrderRejectReason::ORDER_EXCEEDS_LIMIT => 51,
            OrderRejectReason::TOO_LATE_TO_ENTER => 52,
            OrderRejectReason::UNKNOWN_ORDER => 53,
            OrderRejectReason::DUPLICATE_ORDER => 54,
            OrderRejectReason::STALE_ORDER => 56,
            OrderRejectReason::NullVal => 0,
        }
    }

    pub fn from_raw(v: u8) -> (r: OrderRejectReason)
        ensures
            r == OrderRejectReason::spec_from_raw(v),
    {
        if v == 48 {
            OrderRejectReason::BROKER_OPTION
        } else if v == 49 {
            OrderRejectReason::UNKNOWN_SYMBOL
        } else if v == 50 {
            OrderRejectReason::EXCHANGE_CLOSED
        } else if v == 51 {
            OrderRejectReason::ORDER_EXCEEDS_LIMIT
        } else if v == 52 {
            OrderRejectReason::TOO_LATE_TO_ENTER
        } else if v == 53 {
            OrderRejectReason::UNKNOWN_ORDER
        } else if v == 54 {
            OrderRejectReason::DUPLICATE_ORDER
        } else if v == 56 {
            OrderRejectReason::STALE_ORDER
        } else {
            OrderRejectReason::NullVal
        }
    }
}

impl Default for OrderRejectReason {
    fn default() -> (r: Self)
        ensures
            r == OrderRejectReason::NullVal,
    {
        OrderRejectReason::NullVal
    }
}

/// Round-trip and unknown-byte tolerance: every variant survives
/// encode-then-decode, and every byte outside the defined set decodes
/// to the null variant, never an error.
pub proof fn lemma_order_reject_reason_raw(x: OrderRejectReason, v: u8)
    ensures
        OrderRejectReason::spec_from_raw(x.spec_to_raw()) == x,
        !OrderRejectReason::spec_is_defined(v) ==> OrderRejectReason::spec_from_raw(v) == OrderRejectReason::NullVal,
{
}

} // verus!
