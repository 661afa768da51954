use winkernel::basedef::{STATUS_SUCCESS, STATUS_UNSUCCESSFUL};
use winkernel::ntstatus::{nt_error, nt_information, nt_success, nt_warning, NtStatus, NtStatusType};

fn code(bits: u32) -> i32 {
    bits as i32
}

#[test]
fn boundary_success_low() {
    assert_eq!(NtStatus(code(0x0000_0000)).get_type(), NtStatusType::Success);
}

#[test]
fn boundary_success_high() {
    assert_eq!(NtStatus(code(0x3FFF_FFFF)).get_type(), NtStatusType::Success);
}

#[test]
fn boundary_information_low() {
    assert_eq!(NtStatus(code(0x4000_0000)).get_type(), NtStatusType::Information);
}

#[test]
fn boundary_information_high() {
    assert_eq!(NtStatus(code(0x7FFF_FFFF)).get_type(), NtStatusType::Information);
}

#[test]
fn boundary_warning_low() {
    assert_eq!(NtStatus(code(0x8000_0000)).get_type(), NtStatusType::Warning);
}

#[test]
fn boundary_warning_high() {
    assert_eq!(NtStatus(code(0xBFFF_FFFF)).get_type(), NtStatusType::Warning);
}

#[test]
fn boundary_error_low() {
    assert_eq!(NtStatus(code(0xC000_0000)).get_type(), NtStatusType::Error);
}

#[test]
fn boundary_error_high() {
    assert_eq!(NtStatus(code(0xFFFF_FFFF)).get_type(), NtStatusType::Error);
}

#[test]
fn classification_is_exclusive() {
    for bits in [
        0x0000_0000u32,
        0x3FFF_FFFF,
        0x4000_0000,
        0x7FFF_FFFF,
        0x8000_0000,
        0xBFFF_FFFF,
        0xC000_0000,
        0xC000_0001,
        0xFFFF_FFFF,
    ] {
        let s = NtStatus(code(bits));
        let mut hits: u32 = 0;
        if s.is_success() {
            hits += 1;
        }
        if s.get_type() == NtStatusType::Information {
            hits += 1;
        }
        if s.is_warning() {
            hits += 1;
        }
        if s.is_error() {
            hits += 1;
        }
        assert_eq!(hits, 1, "code {bits:#x} must be in exactly one class");
    }
}

#[test]
fn free_predicates_follow_the_ranges() {
    assert!(nt_success(code(0x0000_0000)));
    assert!(nt_success(code(0x7FFF_FFFF)));
    assert!(!nt_success(code(0x8000_0000)));
    assert!(nt_information(code(0x4000_0000)));
    assert!(!nt_information(code(0x3FFF_FFFF)));
    assert!(nt_warning(code(0x8000_0000)));
    assert!(!nt_warning(code(0xC000_0000)));
    assert!(nt_error(code(0xC000_0000)));
    assert!(nt_error(code(0xFFFF_FFFF)));
    assert!(!nt_error(code(0xBFFF_FFFF)));
}

#[test]
fn to_result_succeeds_on_every_non_error_class() {
    assert_eq!(NtStatus(STATUS_SUCCESS).to_result(), Ok(()));
    assert_eq!(NtStatus(code(0x4000_0001)).to_result(), Ok(()));
    assert_eq!(NtStatus(code(0x8000_000D)).to_result(), Ok(()));
}

#[test]
fn to_result_fails_with_the_code_on_error() {
    assert_eq!(NtStatus(STATUS_UNSUCCESSFUL).to_result(), Err(STATUS_UNSUCCESSFUL));
    assert_eq!(NtStatus(code(0xC000_0225)).to_result(), Err(code(0xC000_0225)));
}

#[test]
fn to_result_with_value_carries_the_value() {
    assert_eq!(NtStatus(STATUS_SUCCESS).to_result_with_value(42u32), Ok(42));
    assert_eq!(NtStatus(code(0x8000_0001)).to_result_with_value(7u8), Ok(7));
    assert_eq!(NtStatus(STATUS_UNSUCCESSFUL).to_result_with_value(42u32), Err(STATUS_UNSUCCESSFUL));
}

#[test]
fn status_from_code() {
    let s: NtStatus = NtStatus::from(STATUS_UNSUCCESSFUL);
    assert_eq!(s.0, STATUS_UNSUCCESSFUL);
    assert_eq!(STATUS_UNSUCCESSFUL as u32, 0xC000_0001);
}
