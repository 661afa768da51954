//! Status classifier: every signed 32-bit outcome code falls in exactly one
//! of four categories, decided by the top two bits of its unsigned pattern.
//!
//! Viewed as unsigned patterns the categories are the four quarters of the
//! 32-bit space: Success `[0, 0x3FFFFFFF]`, Information
//! `[0x40000000, 0x7FFFFFFF]`, Warning `[0x80000000, 0xBFFFFFFF]` and Error
//! `[0xC0000000, 0xFFFFFFFF]`.  The code itself is carried as the signed
//! `NTSTATUS`, so the two upper quarters are the negative codes.

use vstd::prelude::*;

use crate::basedef::NTSTATUS;

verus! {

#[derive(Copy, Clone, PartialEq, Eq, Structural, Debug)]
pub struct NtStatus(pub NTSTATUS);

#[derive(Copy, Clone, PartialEq, Eq, Structural, Debug)]
pub enum NtStatusType {
    Success,
    Information,
    Warning,
    Error,
}

/// The category of a code, decided over its signed value.  The two
/// non-negative quarters split at 0x40000000; the two negative quarters
/// split at the signed image of 0xC0000000, which is -0x40000000.
pub open spec fn spec_classify(code: NTSTATUS) -> NtStatusType {
    if 0 <= code <= 0x3FFF_FFFF {
        NtStatusType::Success
    } else if code >= 0x4000_0000 {
        NtStatusType::Information
    } else if code <= -0x4000_0001 {
        NtStatusType::Warning
    } else {
        NtStatusType::Error
    }
}

/// The same classification, over the unsigned 32-bit pattern of the code.
pub open spec fn spec_classify_bits(bits: u32) -> NtStatusType {
    if bits <= 0x3FFF_FFFF {
        NtStatusType::Success
    } else if bits <= 0x7FFF_FFFF {
        NtStatusType::Information
    } else if bits <= 0xBFFF_FFFF {
        NtStatusType::Warning
    } else {
        NtStatusType::Error
    }
}

/// A code classifies as Error exactly when failure must propagate.
pub open spec fn spec_is_error(code: NTSTATUS) -> bool {
    spec_classify(code) is Error
}

impl NtStatus {
    pub fn get_type(&self) -> (t: NtStatusType)
        ensures
            t == spec_classify(self.0),
    {
        if nt_information(self.0) {
            NtStatusType::Information
        } else if nt_success(self.0) {
            NtStatusType::Success
        } else if nt_warning(self.0) {
            NtStatusType::Warning
        } else {
            NtStatusType::Error
        }
    }

    pub fn is_success(&self) -> (r: bool)
        ensures
            r == (spec_classify(self.0) is Success),
    {
        self.get_type() == NtStatusType::Success
    }

    pub fn is_warning(&self) -> (r: bool)
        ensures
            r == (spec_classify(self.0) is Warning),
    {
        self.get_type() == NtStatusType::Warning
    }

    pub fn is_error(&self) -> (r: bool)
        ensures
            r == spec_is_error(self.0),
    {
        self.get_type() == NtStatusType::Error
    }

    /// Error propagates as failure carrying the code; Success, Information
    /// and Warning all count as success for control flow.
    pub fn to_result(&self) -> (r: Result<(), NTSTATUS>)
        ensures
            spec_is_error(self.0) ==> r == Err::<(), NTSTATUS>(self.0),
            !spec_is_error(self.0) ==> r == Ok::<(), NTSTATUS>(()),
    {
        match self.get_type() {
            NtStatusType::Error => Err(self.0),
            _ => Ok(()),
        }
    }

    /// The same split as `to_result`, with `value` carried on success.
    pub fn to_result_with_value<T>(&self, value: T) -> (r: Result<T, NTSTATUS>)
        ensures
            spec_is_error(self.0) ==> r is Err && r->Err_0 == self.0,
            !spec_is_error(self.0) ==> r is Ok && r->Ok_0 == value,
    {
        match self.get_type() {
            NtStatusType::Error => Err(self.0),
            _ => Ok(value),
        }
    }
}

impl From<NTSTATUS> for NtStatus {
    fn from(s: NTSTATUS) -> (r: Self) {
        Self(s)
    }
}

impl vstd::std_specs::convert::FromSpecImpl<NTSTATUS> for NtStatus {
    open spec fn obeys_from_spec() -> bool {
        true
    }

    open spec fn from_spec(s: NTSTATUS) -> Self {
        NtStatus(s)
    }
}

/// Whether the code is a success type (0 - 0x3FFFFFFF) or an informational
/// type (0x40000000 - 0x7FFFFFFF): every non-negative code.
pub fn nt_success(status: NTSTATUS) -> (r: bool)
    ensures
        r == (spec_classify(status) is Success || spec_classify(status) is Information),
        r == (status >= 0),
{
    status >= 0
}

/// Whether the code is an informational type (0x40000000 - 0x7FFFFFFF).
pub fn nt_information(status: NTSTATUS) -> (r: bool)
    ensures
        r == (spec_classify(status) is Information),
        r == (status >= 0x4000_0000),
{
    status >= 0x4000_0000
}

/// Whether the code is a warning type (0x80000000 - 0xBFFFFFFF); those
/// patterns are the signed values below -0x40000000.
pub fn nt_warning(status: NTSTATUS) -> (r: bool)
    ensures
        r == (spec_classify(status) is Warning),
        r == (status < -0x4000_0000),
{
    status < -0x4000_0000
}

/// Whether the code is an error type (0xC0000000 - 0xFFFFFFFF); those
/// patterns are the signed values -0x40000000 through -1.
pub fn nt_error(status: NTSTATUS) -> (r: bool)
    ensures
        r == spec_is_error(status),
        r == (-0x4000_0000 <= status < 0),
{
    -0x4000_0000 <= status && status < 0
}

/// Classification is total and exclusive: over the unsigned pattern of a
/// code, each of the four quarter ranges maps to exactly one category, so
/// every 32-bit pattern is in exactly one.
pub proof fn lemma_classification_total_exclusive(bits: u32)
    ensures
        (spec_classify_bits(bits) is Success) <==> bits <= 0x3FFF_FFFF,
        (spec_classify_bits(bits) is Information) <==> 0x4000_0000 <= bits <= 0x7FFF_FFFF,
        (spec_classify_bits(bits) is Warning) <==> 0x8000_0000 <= bits <= 0xBFFF_FFFF,
        (spec_classify_bits(bits) is Error) <==> 0xC000_0000 <= bits,
{
}

/// The signed classification agrees with the classification of the code's
/// unsigned 32-bit pattern, boundary values included.
pub proof fn lemma_classify_matches_bits(code: NTSTATUS)
    ensures
        spec_classify(code) == spec_classify_bits(code as u32),
{
    assert((0 <= code <= 0x3FFF_FFFF) <==> ((code as u32) <= 0x3FFF_FFFF)) by (bit_vector);
    assert((code >= 0x4000_0000) <==> (0x4000_0000 <= (code as u32) <= 0x7FFF_FFFF))
        by (bit_vector);
    assert((code <= -0x4000_0001) <==> (0x8000_0000 <= (code as u32) <= 0xBFFF_FFFF))
        by (bit_vector);
    assert((-0x4000_0000 <= code < 0) <==> (0xC000_0000 <= (code as u32))) by (bit_vector);
}

} // verus!
