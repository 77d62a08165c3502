use vstd::prelude::*;

verus! {

/// Single-byte enumeration. The reserved byte 0 means null/not-set, and
/// any byte outside the defined set decodes to the null variant rather
/// than failing, for forward compatibility with schema additions.
#[allow(non_camel_case_types)]
#[derive(Clone, Copy, Debug, PartialEq, Eq, PartialOrd, Ord, Hash, Structural)]
pub enum ExecType {
    NEW,
    PARTIAL_FILL,
    FILL,
    DONE_FOR_DAY,
    CANCELLED,
    REPLACED,
    PENDING_CANCEL,
    STOPPED,
    REJECTED,
    SUSPENDED,
    PENDING_NEW,
    CALCULATED,
    EXPIRED,
    RESTATED,
    PENDING_REPLACE,
    NullVal,
}

impl ExecType {
    /// The wire byte of each variant.
    pub open spec fn spec_to_raw(self) -> u8 {
        match self {
            ExecType::NEW => 48,
            ExecType::PARTIAL_FILL => 49,
            ExecType::FILL => 50,
            ExecType::DONE_FOR_DAY => 51,
            ExecType::CANCELLED => 52,
            ExecType::REPLACED => 53,
            ExecType::PENDING_CANCEL => 54,
            ExecType::STOPPED => 55,
            ExecType::REJECTED => 56,
            ExecType::SUSPENDED => 57,
            ExecType::PENDING_NEW => 65,
            ExecType::CALCULATED => 66,
            ExecType::EXPIRED => 67,
            ExecType::RESTATED => 68,
            ExecType::PENDING_REPLACE => 69,
            ExecType::NullVal => 0,
        }
    }

    /// Whether a wire byte is in the defined set of this enumeration.
    pub open spec fn spec_is_defined(v: u8) -> bool {
        v == 48 || v == 49 || v == 50 || v == 51 || v == 52 || v == 53 || v == 54 || v == 55 || v == 56 || v == 57 || v == 65 || v == 66 || v == 67 || v == 68 || v == 69
    }

    /// The variant a wire byte decodes to; a byte outside the defined
    /// set yields the null variant.
    pub open spec fn spec_from_raw(v: u8) -> ExecType {
        if v == 48 {
            ExecType::NEW
        } else if v == 49 {
            ExecType::PARTIAL_FILL
        } else if v == 50 {
            ExecType::FILL
        } else if v == 51 {
            ExecType::DONE_FOR_DAY
        } else if v == 52 {
            ExecType::CANCELLED
        } else if v == 53 {
            ExecType::REPLACED
        } else if v == 54 {
            ExecType::PENDING_CANCEL
        } else if v == 55 {
            ExecType::STOPPED
        } else if v == 56 {
            ExecType::REJECTED
        } else if v == 57 {
            ExecType::SUSPENDED
        } else if v == 65 {
            ExecType::PENDING_NEW
        } else if v == 66 {
            ExecType::CALCULATED
        } else if v == 67 {
            ExecType::EXPIRED
        } else if v == 68 {
            ExecType::RESTATED
        } else if v == 69 {
            ExecType::PENDING_REPLACE
        } else {
            ExecType::NullVal
        }
    }

    #[verifier::when_used_as_spec(spec_to_raw)]
    pub fn to_raw(self) -> (r: u8)
        ensures
            r == self.spec_to_raw(),
    {
        match self {
            ExecType::NEW => 48,
            ExecType::PARTIAL_FILL => 49,
            ExecType::FILL => 50,
            ExecType::DONE_FOR_DAY => 51,
            ExecType::CANCELLED => 52,
            ExecType::REPLACED => 53,
            ExecType::PENDING_CANCEL => 54,
            ExecType::STOPPED => 55,
            ExecType::REJECTED => 56,
            ExecType::SUSPENDED => 57,
            ExecType::PENDING_NEW => 65,
            ExecType::CALCULATED => 66,
            ExecType::EXPIRED => 67,
            ExecType::RESTATED => 68,
            ExecType::PENDING_REPLACE => 69,
            ExecType::NullVal => 0,
        }
    }

    pub fn from_raw(v: u8) -> (r: ExecType)
        ensures
            r == ExecType::spec_from_raw(v),
    {
        if v == 48 {
            ExecType::NEW
        } else if v == 49 {
            ExecType::PARTIAL_FILL
        } else if v == 50 {
            ExecType::FILL
        } else if v == 51 {
            ExecType::DONE_FOR_DAY
        } else if v == 52 {
            ExecType::CANCELLED
        } else if v == 53 {
            ExecType::REPLACED
        } else if v == 54 {
            ExecType::PENDING_CANCEL
        } else if v == 55 {
            ExecType::STOPPED
        } else if v == 56 {
            ExecType::REJECTED
        } else if v == 57 {
            ExecType::SUSPENDED
        } else if v == 65 {
            ExecType::PENDING_NEW
        } else if v == 66 {
            ExecType::CALCULATED
        } else if v == 67 {
            ExecType::EXPIRED
        } else if v == 68 {
            ExecType::RESTATED
        } else if v == 69 {
            ExecType::PENDING_REPLACE
        } else {
            ExecType::NullVal
        }
    }
}

impl Default for ExecType {
    fn default() -> (r: Self)
        ensures
            r == ExecType::NullVal,
    {
        ExecType::NullVal
    }
}

/// Round-trip and unknown-byte tolerance: every variant survives
/// encode-then-decode, and every byte outside the defined set decodes
/// to the null variant, never an error.
pub proof fn lemma_exec_type_raw(x: ExecType, v: u8)
    ensures
        ExecType::spec_from_raw(x.spec_to_raw()) == x,
        !ExecType::spec_is_defined(v) ==> ExecType::spec_from_raw(v) == ExecType::NullVal,
{
}

} // verus!
