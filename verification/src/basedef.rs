//! Kernel-mode base types and the status constants the other modules return.

use vstd::prelude::*;

verus! {

/// Signed 32-bit host outcome code.
pub type NTSTATUS = i32;

/// Processor modes.
#[allow(non_camel_case_types)]
#[derive(Copy, Clone, PartialEq, Eq, Structural, Debug)]
pub enum KPROCESSOR_MODE {
    KernelMode,
    UserMode,
}

/// The neutral success code (bit pattern 0x00000000).
pub const STATUS_SUCCESS: NTSTATUS = 0;

/// The requested operation was unsuccessful (bit pattern 0xC0000001).
pub const STATUS_UNSUCCESSFUL: NTSTATUS = -0x3FFF_FFFF;

/// A required length query must be answered with this code
/// (bit pattern 0xC0000004).
pub const STATUS_INFO_LENGTH_MISMATCH: NTSTATUS = -0x3FFF_FFFC;

/// A resource could not be created for the caller (bit pattern 0xC0000022).
pub const STATUS_ACCESS_DENIED: NTSTATUS = -0x3FFF_FFDE;

/// The object of a lookup does not exist, or a probe answered with an
/// unexpected outcome (bit pattern 0xC0000225).
pub const STATUS_NOT_FOUND: NTSTATUS = -0x3FFF_FDDB;

/// A copy moved fewer bytes than requested (bit pattern 0x8000000D).
pub const STATUS_PARTIAL_COPY: NTSTATUS = -0x7FFF_FFF3;

} // verus!
