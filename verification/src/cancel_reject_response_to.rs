use vstd::prelude::*;

verus! {

/// Single-byte enumeration. The reserved byte 0 means null/not-set, and
/// any byte outside the defined set decodes to the null variant rather
/// than failing, for forward compatibility with schema additions.
#[allow(non_camel_case_types)]
#[derive(Clone, Copy, Debug, PartialEq, Eq, PartialOrd, Ord, Hash, Structural)]
pub enum CancelRejectResponseTo {
    ORDER_CANCEL_REQUEST,
    ORDER_CANCEL_REPLACE_REQUEST,
    NullVal,
}

impl CancelRejectResponseTo {
    /// The wire byte of each variant.
    pub open spec fn spec_to_raw(self) -> u8 {
        match self {
            CancelRejectResponseTo::ORDER_CANCEL_REQUEST => 70,
            CancelRejectResponseTo::ORDER_CANCEL_REPLACE_REQUEST => 71,
            CancelRejectResponseTo::NullVal => 0,
        }
    }

    /// Whether a wire byte is in the defined set of this enumeration.
    pub open spec fn spec_is_defined(v: u8) -> bool {
        v == 70 || v == 71
    }

    /// The variant a wire byte decodes to; a byte outside the defined
    /// set yields the null variant.
    pub open spec fn spec_from_raw(v: u8) -> CancelRejectResponseTo {
        if v == 70 {
            CancelRejectResponseTo::ORDER_CANCEL_REQUEST
        } else if v == 71 {
            CancelRejectResponseTo::ORDER_CANCEL_REPLACE_REQUEST
        } else {
            CancelRejectResponseTo::NullVal
        }
    }

    #[verifier::when_used_as_spec(spec_to_raw)]
    pub fn to_raw(self) -> (r: u8)
        ensures
            r == self.spec_to_raw(),
    {
        match self {
            CancelRejectResponseTo::ORDER_CANCEL_REQUEST => 70,
            CancelRejectResponseTo::ORDER_CANCEL_REPLACE_REQUEST => 71,
            CancelRejectResponseTo::NullVal => 0,
        }
    }

    pub fn from_raw(v: u8) -> (r: CancelRejectResponseTo)
        ensures
            r == CancelRejectResponseTo::spec_from_raw(v),
    {
        if v == 70 {
            CancelRejectResponseTo::ORDER_CANCEL_REQUEST
        } else if v == 71 {
            CancelRejectResponseTo::ORDER_CANCEL_REPLACE_REQUEST
        } else {
            CancelRejectResponseTo::NullVal
        }
    }
}

impl Default for CancelRejectResponseTo {
    fn default() -> (r: Self)
        ensures
            r == CancelRejectResponseTo::NullVal,
    {
        CancelRejectResponseTo::NullVal
    }
}

/// Round-trip and unknown-byte tolerance: every variant survives
/// encode-then-decode, and every byte outside the defined set decodes
/// to the null variant, never an error.
pub proof fn lemma_cancel_reject_response_to_raw(x: CancelRejectResponseTo, v: u8)
    ensures
        CancelRejectResponseTo::spec_from_raw(x.spec_to_raw()) == x,
        !CancelRejectResponseTo::spec_is_defined(v) ==> CancelRejectResponseTo::spec_from_raw(v) == CancelRejectResponseTo::NullVal,
{
}

} // verus!
