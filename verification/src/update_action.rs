use vstd::prelude::*;

verus! {

/// Single-byte enumeration. The reserved byte 0 means null/not-set, and
/// any byte outside the defined set decodes to the null variant rather
/// than failing, for forward compatibility with schema additions.
#[allow(non_camel_case_types)]
#[derive(Clone, Copy, Debug, PartialEq, Eq, PartialOrd, Ord, Hash, Structural)]
pub enum UpdateAction {
    NEW,
    UPDATE,
    DELETE,
    NullVal,
}

impl UpdateAction {
    /// The wire byte of each variant.
    pub open spec fn spec_to_raw(self) -> u8 {
        match self {
            UpdateAction::NEW => 78,
            UpdateAction::UPDATE => 85,
            UpdateAction::DELETE => 68,
            UpdateAction::NullVal => 0,
        }
    }

    /// Whether a wire byte is in the defined set of this enumeration.
    pub open spec fn spec_is_defined(v: u8) -> bool {
        v == 78 || v == 85 || v == 68
    }

    /// The variant a wire byte decodes to; a byte outside the defined
    /// set yields the null variant.
    pub open spec fn spec_from_raw(v: u8) -> UpdateAction {
        if v == 78 {
            UpdateAction::NEW
        } else if v == 85 {
            UpdateAction::UPDATE
        } else if v == 68 {
            UpdateAction::DELETE
        } else {
            UpdateAction::NullVal
        }
    }

    #[verifier::when_used_as_spec(spec_to_raw)]
    pub fn to_raw(self) -> (r: u8)
        ensures
            r == self.spec_to_raw(),
    {
        match self {
            UpdateAction::NEW => 78,
            UpdateAction::UPDATE => 85,
            UpdateAction::DELETE => 68,
            UpdateAction::NullVal => 0,
        }
    }

    pub fn from_raw(v: u8) -> (r: UpdateAction)
        ensures
            r == UpdateAction::spec_from_raw(v),
    {
        if v == 78 {
            UpdateAction::NEW
        } else if v == 85 {
            UpdateAction::UPDATE
        } else if v == 68 {
            UpdateAction::DELETE
        } else {
            UpdateAction::NullVal
        }
    }
}

impl Default for UpdateAction {
    fn default() -> (r: Self)
        ensures
            r == UpdateAction::NullVal,
    {
        UpdateAction::NullVal
    }
}

/// Round-trip and unknown-byte tolerance: every variant survives
/// encode-then-decode, and every byte outside the defined set decodes
/// to the null variant, never an error.
pub proof fn lemma_update_action_raw(x: UpdateAction, v: u8)
    ensures
        UpdateAction::spec_from_raw(x.spec_to_raw()) == x,
        !UpdateAction::spec_is_defined(v) ==> UpdateAction::spec_from_raw(v) == UpdateAction::NullVal,
{
}

} // verus!
