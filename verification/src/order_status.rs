use vstd::prelude::*;

verus! {

/// Single-byte enumeration. The reserved byte 0 means null/not-set, and
/// any byte outside the defined set decodes to the null variant rather
/// than failing, for forward compatibility with schema additions.
#[allow(non_camel_case_types)]
#[derive(Clone, Copy, Debug, PartialEq, Eq, PartialOrd, Ord, Hash, Structural)]
pub enum OrderStatus {
    NEW,
    PARTIALLY_FILLED,
    FILLED,
    DONE_FOR_DAY,
    CANCELLED,
    REPLACED,
    PENDING_CANCEL,
    STOPPED,
    REJECTED,
    SUSPENDED,
    PENDING_NEW,
    CALCULATED,
    EXPIRED,
    ACCEPTED_FOR_BID,
    PENDING_REPLACE,
    NullVal,
}

impl OrderStatus {
    /// The wire byte of each variant.
    pub open spec fn spec_to_raw(self) -> u8 {
        match self {
            OrderStatus::NEW => 48,
            OrderStatus::PARTIALLY_FILLED => 49,
            OrderStatus::FILLED => 50,
            OrderStatus::DONE_FOR_DAY => 51,
            OrderStatus::CANCELLED => 52,
            OrderStatus::REPLACED => 53,
            OrderStatus::PENDING_CANCEL => 54,
            OrderStatus::STOPPED => 55,
            OrderStatus::REJECTED => 56,
            OrderStatus::SUSPENDED => 57,
            OrderStatus::PENDING_NEW => 65,
            OrderStatus::CALCULATED => 66,
            OrderStatus::EXPIRED => 67,
            OrderStatus::ACCEPTED_FOR_BID => 68,
            OrderStatus::PENDING_REPLACE => 69,
            OrderStatus::NullVal => 0,
        }
    }

    /// Whether a wire byte is in the defined set of this enumeration.
    pub open spec fn spec_is_defined(v: u8) -> bool {
        v == 48 || v == 49 || v == 50 || v == 51 || v == 52 || v == 53 || v == 54 || v == 55 || v == 56 || v == 57 || v == 65 || v == 66 || v == 67 || v == 68 || v == 69
    }

    /// The variant a wire byte decodes to; a byte outside the defined
    /// set yields the null variant.
    pub open spec fn spec_from_raw(v: u8) -> OrderStatus {
        if v == 48 {
            OrderStatus::NEW
        } else if v == 49 {
            OrderStatus::PARTIALLY_FILLED
        } else if v == 50 {
            OrderStatus::FILLED
        } else if v == 51 {
            OrderStatus::DONE_FOR_DAY
        } else if v == 52 {
            OrderStatus::CANCELLED
        } else if v == 53 {
            OrderStatus::REPLACED
        } else if v == 54 {
            OrderStatus::PENDING_CANCEL
        } else if v == 55 {
            OrderStatus::STOPPED
        } else if v == 56 {
            OrderStatus::REJECTED
        } else if v == 57 {
            OrderStatus::SUSPENDED
        } else if v == 65 {
            OrderStatus::PENDING_NEW
        } else if v == 66 {
            OrderStatus::CALCULATED
        } else if v == 67 {
            OrderStatus::EXPIRED
        } else if v == 68 {
            OrderStatus::ACCEPTED_FOR_BID
        } else if v == 69 {
            OrderStatus::PENDING_REPLACE
        } else {
            OrderStatus::NullVal
        }
    }

    #[verifier::when_used_as_spec(spec_to_raw)]
    pub fn to_raw(self) -> (r: u8)
        ensures
            r == self.spec_to_raw(),
    {
        match self {
            OrderStatus::NEW => 48,
            OrderStatus::PARTIALLY_FILLED => 49,
            OrderStatus::FILLED => 50,
            OrderStatus::DONE_FOR_DAY => 51,
            OrderStatus::CANCELLED => 52,
            OrderStatus::REPLACED => 53,
            OrderStatus::PENDING_CANCEL => 54,
            OrderStatus::STOPPED => 55,
            OrderStatus::REJECTED => 56,
            OrderStatus::SUSPENDED => 57,
            OrderStatus::PENDING_NEW => 65,
            OrderStatus::CALCULATED => 66,
            OrderStatus::EXPIRED => 67,
            OrderStatus::ACCEPTED_FOR_BID => 68,
            OrderStatus::PENDING_REPLACE => 69,
            OrderStatus::NullVal => 0,
        }
    }

    pub fn from_raw(v: u8) -> (r: OrderStatus)
        ensures
            r == OrderStatus::spec_from_raw(v),
    {
        if v == 48 {
            OrderStatus::NEW
        } else if v == 49 {
            OrderStatus::PARTIALLY_FILLED
        } else if v == 50 {
            OrderStatus::FILLED
        } else if v == 51 {
            OrderStatus::DONE_FOR_DAY
        } else if v == 52 {
            OrderStatus::CANCELLED
        } else if v == 53 {
            OrderStatus::REPLACED
        } else if v == 54 {
            OrderStatus::PENDING_CANCEL
        } else if v == 55 {
            OrderStatus::STOPPED
        } else if v == 56 {
            OrderStatus::REJECTED
        } else if v == 57 {
            OrderStatus::SUSPENDED
        } else if v == 65 {
            OrderStatus::PENDING_NEW
        } else if v == 66 {
            OrderStatus::CALCULATED
        } else if v == 67 {
            OrderStatus::EXPIRED
        } else if v == 68 {
            OrderStatus::ACCEPTED_FOR_BID
        } else if v == 69 {
            OrderStatus::PENDING_REPLACE
        } else {
            OrderStatus::NullVal
        }
    }
}

impl Default for OrderStatus {
    fn default() -> (r: Self)
        ensures
            r == OrderStatus::NullVal,
    {
        OrderStatus::NullVal
    }
}

/// Round-trip and unknown-byte tolerance: every variant survives
/// encode-then-decode, and every byte outside the defined set decodes
/// to the null variant, never an error.
pub proof fn lemma_order_status_raw(x: OrderStatus, v: u8)
    ensures
        OrderStatus::spec_from_raw(x.spec_to_raw()) == x,
        !OrderStatus::spec_is_defined(v) ==> OrderStatus::spec_from_raw(v) == OrderStatus::NullVal,
{
}

} // verus!
