use vstd::prelude::*;

verus! {

/// Single-byte enumeration. The reserved byte 0 means null/not-set, and
/// any byte outside the defined set decodes to the null variant rather
/// than failing, for forward compatibility with schema additions.
#[allow(non_camel_case_types)]
#[derive(Clone, Copy, Debug, PartialEq, Eq, PartialOrd, Ord, Hash, Structural)]
pub enum CancelRejectReason {
    TOO_LATE_TO_CANCEL,
    UNKNOWN_ORDER,
    BROKER_OPTION,
    ALREADY_IN_PENDING,
    NullVal,
}

impl CancelRejectReason {
    /// The wire byte of each variant.
    pub open spec fn spec_to_raw(self) -> u8 {
        match self {
            CancelRejectReason::TOO_LATE_TO_CANCEL => 48,
            CancelRejectReason::UNKNOWN_ORDER => 49,
            CancelRejectReason::BROKER_OPTION => 50,
            CancelRejectReason::ALREADY_IN_PENDING => 51,
            CancelRejectReason::NullVal => 0,
        }
    }

    /// Whether a wire byte is in the defined set of this enumeration.
    pub open spec fn spec_is_defined(v: u8) -> bool {
        v == 48 || v == 49 || v == 50 || v == 51
    }

    /// The variant a wire byte decodes to; a byte outside the defined
    /// set yields the null variant.
    pub open spec fn spec_from_raw(v: u8) -> CancelRejectReason {
        if v == 48 {
            CancelRejectReason::TOO_LATE_TO_CANCEL
        } else if v == 49 {
            CancelRejectReason::UNKNOWN_ORDER
        } else if v == 50 {
            CancelRejectReason::BROKER_OPTION
        } else if v == 51 {
            CancelRejectReason::ALREADY_IN_PENDING
        } else {
            CancelRejectReason::NullVal
        }
    }

    #[verifier::when_used_as_spec(spec_to_raw)]
    pub fn to_raw(self) -> (r: u8)
        ensures
            r == self.spec_to_raw(),
    {
        match self {
            CancelRejectReason::TOO_LATE_TO_CANCEL => 48,
            CancelRejectReason::UNKNOWN_ORDER => 49,
            CancelRejectReason::BROKER_OPTION => 50,
            CancelRejectReason::ALREADY_IN_PENDING => 51,
            CancelRejectReason::NullVal => 0,
        }
    }

    pub fn from_raw(v: u8) -> (r: CancelRejectReason)
        ensures
            r == CancelRejectReason::spec_from_raw(v),
    {
        if v == 48 {
            CancelRejectReason::TOO_LATE_TO_CANCEL
        } else if v == 49 {
            CancelRejectReason::UNKNOWN_ORDER
        } else if v == 50 {
            CancelRejectReason::BROKER_OPTION
        } else if v == 51 {
            CancelRejectReason::ALREADY_IN_PENDING
        } else {
            CancelRejectReason::NullVal
        }
    }
}

impl Default for CancelRejectReason {
    fn default() -> (r: Self)
        ensures
            r == CancelRejectReason::NullVal,
    {
        CancelRejectReason::NullVal
    }
}

/// Round-trip and unknown-byte tolerance: every variant survives
/// encode-then-decode, and every byte outside the defined set decodes
/// to the null variant, never an error.
pub proof fn lemma_cancel_reject_reason_raw(x: CancelRejectReason, v: u8)
    ensures
        CancelRejectReason::spec_from_raw(x.spec_to_raw()) == x,
        !CancelRejectReason::spec_is_defined(v) ==> CancelRejectReason::spec_from_raw(v) == CancelRejectReason::NullVal,
{
}

} // verus!
