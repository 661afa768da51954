//! Probe/fill query protocol: discover the required size with a
//! zero-capacity call, then allocate a buffer of exactly that size and let
//! the host fill it.  The two host calls are not atomic; the host's state
//! may change between probe and fill, and any retry is the caller's
//! business.  Both host responses enter here as plain values, so the
//! protocol's decisions are proved for every response the host could give.

use vstd::prelude::*;

use crate::basedef::{NTSTATUS, STATUS_INFO_LENGTH_MISMATCH, STATUS_NOT_FOUND, STATUS_UNSUCCESSFUL};
use crate::ntstatus::{spec_is_error, NtStatus};
use crate::vsb::VariableSizedBuffer;

verus! {

/// The result the protocol owes for given host responses: a probe that
/// does not answer with the size-known code is an unexpected outcome and
/// fails as not found; a probe that reports size 0 is itself unsuccessful;
/// a fill whose final status classifies as Error fails with that status;
/// otherwise the caller owns a buffer of exactly the reported size holding
/// what the host filled in.
pub open spec fn query_outcome(
    probe_status: NTSTATUS,
    reported_size: u32,
    fill_status: NTSTATUS,
    filled: Seq<u8>,
) -> Result<Seq<u8>, NTSTATUS> {
    if probe_status != STATUS_INFO_LENGTH_MISMATCH {
        Err(STATUS_NOT_FOUND)
    } else if reported_size == 0 {
        Err(STATUS_UNSUCCESSFUL)
    } else if spec_is_error(fill_status) {
        Err(fill_status)
    } else {
        Ok(filled)
    }
}

/// Run the probe/fill protocol against the host's two responses:
/// `probe_status` and `reported_size` are the zero-capacity call's answer,
/// and `fill_status` with `filled` are the outcome of the second call on a
/// buffer of exactly the reported size.
pub fn query_system_information(
    probe_status: NtStatus,
    reported_size: u32,
    fill_status: NtStatus,
    filled: &Vec<u8>,
) -> (r: Result<VariableSizedBuffer, NTSTATUS>)
    requires
        filled@.len() == reported_size,
    ensures
        match query_outcome(probe_status.0, reported_size, fill_status.0, filled@) {
            Ok(contents) => r is Ok && r->Ok_0@ == contents && r->Ok_0@.len() == reported_size,
            Err(e) => r == Err::<VariableSizedBuffer, NTSTATUS>(e),
        },
{
    if probe_status.0 != STATUS_INFO_LENGTH_MISMATCH {
        return Err(STATUS_NOT_FOUND);
    }
    if reported_size == 0 {
        return Err(STATUS_UNSUCCESSFUL);
    }
    let mut buf = VariableSizedBuffer::allocate(reported_size as usize);
    buf.fill(filled);
    match fill_status.to_result() {
        Err(e) => Err(e),
        Ok(()) => Ok(buf),
    }
}

} // verus!
