//! Cross-address-space copy with exact-length semantics.  The host's
//! privileged copy reports a status and how many bytes moved; an Error
//! status propagates, and a transfer of fewer bytes than the caller's
//! buffer holds is promoted to a hard error even when the host itself
//! reported success, because callers require exact-length semantics.

use vstd::prelude::*;

use crate::basedef::{NTSTATUS, STATUS_UNSUCCESSFUL};
use crate::ntstatus::{spec_is_error, NtStatus};

verus! {

/// The host's answer to one copy request: its classified status and the
/// number of bytes actually transferred, never more than were requested.
#[derive(Copy, Clone, PartialEq, Eq, Structural, Debug)]
pub struct CopyResponse {
    pub status: NTSTATUS,
    pub bytes_copied: usize,
}

/// An opaque handle to a process, carried as the host gave it out.
#[derive(Copy, Clone, PartialEq, Eq, Structural, Debug)]
pub struct PeProcess(pub u64);

impl PeProcess {
    pub fn from_peprocess(proc_handle: u64) -> (r: Self)
        ensures
            r.0 == proc_handle,
    {
        Self(proc_handle)
    }

    /// Copy `buf_len` bytes out of this process into the current context.
    /// An Error-class host status fails with that status; under any other
    /// status the request succeeds exactly when the host moved every byte,
    /// a short transfer being unsuccessful even though the host itself
    /// reported success.
    pub fn read_memory(&self, buf_len: usize, host: &CopyResponse) -> (r: Result<(), NTSTATUS>)
        requires
            host.bytes_copied <= buf_len,
        ensures
            spec_is_error(host.status) ==> r == Err::<(), NTSTATUS>(host.status),
            !spec_is_error(host.status) && host.bytes_copied < buf_len ==> r == Err::<
                (),
                NTSTATUS,
            >(STATUS_UNSUCCESSFUL),
            !spec_is_error(host.status) && host.bytes_copied == buf_len ==> r == Ok::<
                (),
                NTSTATUS,
            >(()),
    {
        exact_length_copy_outcome(buf_len, host)
    }

    /// Copy `buf_len` bytes from the current context into this process,
    /// with the same status propagation and exact-length promotion as
    /// `read_memory`.
    pub fn write_memory(&self, buf_len: usize, host: &CopyResponse) -> (r: Result<(), NTSTATUS>)
        requires
            host.bytes_copied <= buf_len,
        ensures
            spec_is_error(host.status) ==> r == Err::<(), NTSTATUS>(host.status),
            !spec_is_error(host.status) && host.bytes_copied < buf_len ==> r == Err::<
                (),
                NTSTATUS,
            >(STATUS_UNSUCCESSFUL),
            !spec_is_error(host.status) && host.bytes_copied == buf_len ==> r == Ok::<
                (),
                NTSTATUS,
            >(()),
    {
        exact_length_copy_outcome(buf_len, host)
    }
}

/// The shared outcome rule of both copy directions.
fn exact_length_copy_outcome(buf_len: usize, host: &CopyResponse) -> (r: Result<(), NTSTATUS>)
    requires
        host.bytes_copied <= buf_len,
    ensures
        spec_is_error(host.status) ==> r == Err::<(), NTSTATUS>(host.status),
        !spec_is_error(host.status) && host.bytes_copied < buf_len ==> r == Err::<(), NTSTATUS>(
            STATUS_UNSUCCESSFUL,
        ),
        !spec_is_error(host.status) && host.bytes_copied == buf_len ==> r == Ok::<(), NTSTATUS>(()),
{
    match NtStatus(host.status).to_result() {
        Err(e) => Err(e),
        Ok(()) => {
            if host.bytes_copied < buf_len {
                Err(STATUS_UNSUCCESSFUL)
            } else {
                Ok(())
            }
        },
    }
}

} // verus!
