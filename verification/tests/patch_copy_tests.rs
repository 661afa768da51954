use winkernel::basedef::{
    STATUS_ACCESS_DENIED, STATUS_PARTIAL_COPY, STATUS_SUCCESS, STATUS_UNSUCCESSFUL,
};
use winkernel::kernel::read_physical;
use winkernel::patch::{safe_copy, PatchEvent, PatchHost, PatchSession};
use winkernel::ntstatus::NtStatus;
use winkernel::process::{CopyResponse, PeProcess};

fn clean_host() -> PatchHost {
    PatchHost {
        descriptor_created: true,
        lock_status: STATUS_SUCCESS,
        map_created: true,
        protect_status: STATUS_SUCCESS,
    }
}

#[test]
fn patch_success_writes_the_source_and_tears_everything_down() {
    let source = vec![1, 2, 3, 4];
    let destination = vec![9, 9, 9, 9];
    let r = safe_copy(&source, &destination, &clean_host());
    assert_eq!(r.result, Ok(()));
    assert_eq!(r.destination, source);
    assert_eq!(
        r.trace,
        vec![
            PatchEvent::DescriptorAllocated,
            PatchEvent::PagesLocked,
            PatchEvent::PagesMapped,
            PatchEvent::ProtectionChanged,
            PatchEvent::SourceCopied,
            PatchEvent::PagesUnmapped,
            PatchEvent::PagesUnlocked,
            PatchEvent::DescriptorFreed,
        ]
    );
}

#[test]
fn describe_failure_is_access_denied_with_nothing_to_release() {
    let mut host = clean_host();
    host.descriptor_created = false;
    let destination = vec![9, 9];
    let r = safe_copy(&vec![1, 2], &destination, &host);
    assert_eq!(r.result, Err(STATUS_ACCESS_DENIED));
    assert_eq!(r.trace, vec![]);
    assert_eq!(r.destination, destination);
}

#[test]
fn lock_failure_frees_the_descriptor_and_returns_its_status() {
    let mut host = clean_host();
    host.lock_status = STATUS_UNSUCCESSFUL;
    let destination = vec![9, 9];
    let r = safe_copy(&vec![1, 2], &destination, &host);
    assert_eq!(r.result, Err(STATUS_UNSUCCESSFUL));
    assert_eq!(
        r.trace,
        vec![PatchEvent::DescriptorAllocated, PatchEvent::DescriptorFreed]
    );
    assert_eq!(r.destination, destination);
}

#[test]
fn map_failure_unlocks_and_frees_and_is_access_denied() {
    let mut host = clean_host();
    host.map_created = false;
    let destination = vec![9, 9];
    let r = safe_copy(&vec![1, 2], &destination, &host);
    assert_eq!(r.result, Err(STATUS_ACCESS_DENIED));
    assert_eq!(
        r.trace,
        vec![
            PatchEvent::DescriptorAllocated,
            PatchEvent::PagesLocked,
            PatchEvent::PagesUnlocked,
            PatchEvent::DescriptorFreed,
        ]
    );
    assert_eq!(r.destination, destination);
}

#[test]
fn protect_failure_unwinds_map_lock_descriptor_and_returns_its_status() {
    let denied = 0xC000_0022u32 as i32;
    let mut host = clean_host();
    host.protect_status = denied;
    let destination = vec![9, 9];
    let r = safe_copy(&vec![1, 2], &destination, &host);
    assert_eq!(r.result, Err(denied));
    assert_eq!(
        r.trace,
        vec![
            PatchEvent::DescriptorAllocated,
            PatchEvent::PagesLocked,
            PatchEvent::PagesMapped,
            PatchEvent::PagesUnmapped,
            PatchEvent::PagesUnlocked,
            PatchEvent::DescriptorFreed,
        ]
    );
    assert_eq!(r.destination, destination);
}

#[test]
fn warning_outcomes_do_not_fail_the_patch() {
    let mut host = clean_host();
    host.lock_status = 0x8000_0001u32 as i32;
    host.protect_status = 0x4000_0000u32 as i32;
    let r = safe_copy(&vec![7], &vec![0], &host);
    assert_eq!(r.result, Ok(()));
    assert_eq!(r.destination, vec![7]);
}

#[test]
fn process_copy_of_every_byte_succeeds() {
    let p = PeProcess::from_peprocess(0x1000);
    let host = CopyResponse { status: STATUS_SUCCESS, bytes_copied: 16 };
    assert_eq!(p.read_memory(16, &host), Ok(()));
    assert_eq!(p.write_memory(16, &host), Ok(()));
}

#[test]
fn short_process_copy_is_unsuccessful_even_under_a_success_status() {
    let p = PeProcess::from_peprocess(0x1000);
    let host = CopyResponse { status: STATUS_SUCCESS, bytes_copied: 15 };
    assert_eq!(p.read_memory(16, &host), Err(STATUS_UNSUCCESSFUL));
    assert_eq!(p.write_memory(16, &host), Err(STATUS_UNSUCCESSFUL));
}

#[test]
fn physical_read_of_every_byte_succeeds() {
    let host = CopyResponse { status: STATUS_SUCCESS, bytes_copied: 8 };
    assert_eq!(read_physical(8, &host), Ok(()));
}

#[test]
fn short_physical_read_is_a_partial_copy_even_under_a_success_status() {
    let host = CopyResponse { status: STATUS_SUCCESS, bytes_copied: 7 };
    assert_eq!(read_physical(8, &host), Err(STATUS_PARTIAL_COPY));
}

#[test]
fn erroneous_physical_read_propagates_the_host_status() {
    let denied = 0xC000_0022u32 as i32;
    let host = CopyResponse { status: denied, bytes_copied: 0 };
    assert_eq!(read_physical(8, &host), Err(denied));
}

#[test]
fn erroneous_process_copy_fails_even_at_full_length() {
    let denied = 0xC000_0022u32 as i32;
    let p = PeProcess::from_peprocess(0x1000);
    let host = CopyResponse { status: denied, bytes_copied: 16 };
    assert_eq!(p.read_memory(16, &host), Err(denied));
    assert_eq!(p.write_memory(16, &host), Err(denied));
}

#[test]
fn session_describe_failure_finishes_with_nothing_held() {
    let mut session = PatchSession::begin();
    let teardown = session.on_described(false);
    assert!(teardown.is_empty());
    assert!(session.finished());
    assert_eq!(session.result(), Err(STATUS_ACCESS_DENIED));
}

#[test]
fn session_lock_failure_frees_the_descriptor() {
    let mut session = PatchSession::begin();
    assert!(session.on_described(true).is_empty());
    let teardown = session.on_locked(NtStatus(STATUS_UNSUCCESSFUL));
    assert_eq!(teardown, vec![PatchEvent::DescriptorFreed]);
    assert!(session.finished());
    assert_eq!(session.result(), Err(STATUS_UNSUCCESSFUL));
}

#[test]
fn session_map_failure_unwinds_lock_then_descriptor() {
    let mut session = PatchSession::begin();
    assert!(session.on_described(true).is_empty());
    assert!(session.on_locked(NtStatus(STATUS_SUCCESS)).is_empty());
    let teardown = session.on_mapped(false);
    assert_eq!(teardown, vec![PatchEvent::PagesUnlocked, PatchEvent::DescriptorFreed]);
    assert!(session.finished());
    assert_eq!(session.result(), Err(STATUS_ACCESS_DENIED));
}

#[test]
fn session_protect_failure_unwinds_in_reverse_order() {
    let denied = 0xC000_0022u32 as i32;
    let mut session = PatchSession::begin();
    assert!(session.on_described(true).is_empty());
    assert!(session.on_locked(NtStatus(STATUS_SUCCESS)).is_empty());
    assert!(session.on_mapped(true).is_empty());
    let teardown = session.on_protected(NtStatus(denied));
    assert_eq!(
        teardown,
        vec![PatchEvent::PagesUnmapped, PatchEvent::PagesUnlocked, PatchEvent::DescriptorFreed]
    );
    assert!(session.finished());
    assert_eq!(session.result(), Err(denied));
}

#[test]
fn session_success_tears_down_after_the_write() {
    let mut session = PatchSession::begin();
    assert!(session.on_described(true).is_empty());
    assert!(session.on_locked(NtStatus(STATUS_SUCCESS)).is_empty());
    assert!(session.on_mapped(true).is_empty());
    assert!(session.on_protected(NtStatus(STATUS_SUCCESS)).is_empty());
    assert!(!session.finished());
    let teardown = session.on_written();
    assert_eq!(
        teardown,
        vec![PatchEvent::PagesUnmapped, PatchEvent::PagesUnlocked, PatchEvent::DescriptorFreed]
    );
    assert!(session.finished());
    assert_eq!(session.result(), Ok(()));
}
