use winkernel::basedef::{STATUS_NOT_FOUND, STATUS_SUCCESS, STATUS_UNSUCCESSFUL};
use winkernel::kernel::{
    get_kernel_export, get_kernel_modules, get_object_name, get_process_list, ExportEntry,
    ExportTable, MODULE_RECORD_SIZE, PROCESS_RECORD_SIZE,
};
use winkernel::ntstatus::NtStatus;
use winkernel::string::UnicodeString;
use winkernel::vsb::VariableSizedBuffer;
use winkernel::walker::WalkError;

fn snapshot_buffer(bytes: &[u8]) -> VariableSizedBuffer {
    let mut buf = VariableSizedBuffer::allocate(bytes.len());
    buf.fill(&bytes.to_vec());
    buf
}

fn put_u16(b: &mut [u8], off: usize, v: u16) {
    b[off..off + 2].copy_from_slice(&v.to_le_bytes());
}

fn put_u32(b: &mut [u8], off: usize, v: u32) {
    b[off..off + 4].copy_from_slice(&v.to_le_bytes());
}

fn put_u64(b: &mut [u8], off: usize, v: u64) {
    b[off..off + 8].copy_from_slice(&v.to_le_bytes());
}

fn module_record(image_base: u64, image_size: u32, load_order: u16, path: &[u8]) -> Vec<u8> {
    let mut rec = vec![0u8; MODULE_RECORD_SIZE];
    put_u64(&mut rec, 0, 0x51);
    put_u64(&mut rec, 8, image_base);
    put_u64(&mut rec, 16, image_base);
    put_u32(&mut rec, 24, image_size);
    put_u32(&mut rec, 28, 0x9);
    put_u16(&mut rec, 32, load_order);
    put_u16(&mut rec, 34, load_order + 1);
    put_u16(&mut rec, 36, 3);
    put_u16(&mut rec, 38, 12);
    rec[40..40 + path.len()].copy_from_slice(path);
    rec
}

#[test]
fn module_snapshot_parses_count_and_fields() {
    let mut bytes = vec![0u8; 8];
    put_u32(&mut bytes, 0, 2);
    bytes.extend_from_slice(&module_record(0xFFFF_8000_0000_0000, 0x1000, 0, b"a\\ntoskrnl.exe\0"));
    bytes.extend_from_slice(&module_record(0xFFFF_9000_0000_0000, 0x2000, 1, b"b\\hal.dll\0"));
    let buf = snapshot_buffer(&bytes);
    let modules = get_kernel_modules(&buf).expect("two declared records fit");
    assert_eq!(modules.len(), 2);
    assert_eq!(modules[0].image_base, 0xFFFF_8000_0000_0000);
    assert_eq!(modules[0].image_size, 0x1000);
    assert_eq!(modules[0].load_order_index, 0);
    assert_eq!(modules[0].init_order_index, 1);
    assert_eq!(modules[0].offset_to_file_name, 12);
    assert_eq!(modules[0].full_path(), b"a\\ntoskrnl.exe".to_vec());
    assert_eq!(modules[1].image_base, 0xFFFF_9000_0000_0000);
    assert_eq!(modules[1].full_path(), b"b\\hal.dll".to_vec());
}

#[test]
fn module_snapshot_with_an_overstated_count_is_truncated() {
    let mut bytes = vec![0u8; 8];
    put_u32(&mut bytes, 0, 3);
    bytes.extend_from_slice(&module_record(0x1000, 0x1000, 0, b"m\0"));
    let buf = snapshot_buffer(&bytes);
    assert_eq!(get_kernel_modules(&buf), Err(WalkError::Truncated));
}

#[test]
fn full_path_without_a_terminator_takes_the_whole_field() {
    let rec = module_record(0x1000, 0x10, 0, &[0x41u8; 256]);
    let buf_bytes = {
        let mut b = vec![0u8; 8];
        put_u32(&mut b, 0, 1);
        b.extend_from_slice(&rec);
        b
    };
    let modules = get_kernel_modules(&snapshot_buffer(&buf_bytes)).unwrap();
    assert_eq!(modules[0].full_path().len(), 256);
}

fn process_record(next: u32, threads: u32, pid: u64, create_time: i64) -> Vec<u8> {
    let mut rec = vec![0u8; PROCESS_RECORD_SIZE];
    put_u32(&mut rec, 0, next);
    put_u32(&mut rec, 4, threads);
    put_u64(&mut rec, 32, create_time as u64);
    put_u16(&mut rec, 56, 8);
    put_u16(&mut rec, 58, 10);
    put_u64(&mut rec, 64, 0xFFFF_AAAA_BBBB_CCCC);
    put_u32(&mut rec, 72, 8);
    put_u64(&mut rec, 80, pid);
    put_u32(&mut rec, 96, 17);
    put_u64(&mut rec, 144, 0x5000);
    rec
}

#[test]
fn process_list_walks_the_chain_and_parses_fields() {
    let mut bytes = process_record(PROCESS_RECORD_SIZE as u32, 4, 4460, -5);
    bytes.extend_from_slice(&process_record(0, 9, 8, 123_456_789));
    let buf = snapshot_buffer(&bytes);
    let procs = get_process_list(&buf).expect("a two-record chain walks cleanly");
    assert_eq!(procs.len(), 2);
    assert_eq!(procs[0].next_entry_offset, PROCESS_RECORD_SIZE as u32);
    assert_eq!(procs[0].number_of_threads, 4);
    assert_eq!(procs[0].unique_process_id, 4460);
    assert_eq!(procs[0].create_time, -5);
    assert_eq!(procs[0].image_name_length, 8);
    assert_eq!(procs[0].image_name_buffer, 0xFFFF_AAAA_BBBB_CCCC);
    assert_eq!(procs[0].handle_count, 17);
    assert_eq!(procs[0].working_set_size, 0x5000);
    assert_eq!(procs[1].next_entry_offset, 0);
    assert_eq!(procs[1].number_of_threads, 9);
    assert_eq!(procs[1].create_time, 123_456_789);
}

#[test]
fn process_chain_leaving_the_buffer_is_corruption() {
    let bytes = process_record(512, 1, 4, 0);
    let buf = snapshot_buffer(&bytes);
    assert_eq!(get_process_list(&buf), Err(WalkError::CorruptChain));
}

fn synthetic_exports() -> ExportTable {
    ExportTable {
        entries: vec![
            ExportEntry { name: b"NtOpenProcess".to_vec(), address: 0xFFFF_8000_1111_0000 },
            ExportEntry { name: b"NtCreateFile".to_vec(), address: 0xFFFF_8000_2222_0000 },
            ExportEntry { name: b"NtClose".to_vec(), address: 0xFFFF_8000_3333_0000 },
        ],
    }
}

#[test]
fn present_export_resolves_to_its_address() {
    let table = synthetic_exports();
    let addr = get_kernel_export(&table, &b"NtCreateFile".to_vec());
    assert_eq!(addr, Some(0xFFFF_8000_2222_0000));
}

#[test]
fn absent_export_resolves_to_none() {
    let table = synthetic_exports();
    assert_eq!(get_kernel_export(&table, &b"NtCreateFib".to_vec()), None);
}

fn object_name_bytes(units: &[u16]) -> Vec<u8> {
    let byte_len = (units.len() * 2) as u16;
    let mut b = vec![0u8; 16 + units.len() * 2];
    put_u16(&mut b, 0, byte_len);
    put_u16(&mut b, 2, byte_len + 2);
    put_u64(&mut b, 8, 0xFFFF_0000_0000_0010);
    for (i, u) in units.iter().enumerate() {
        put_u16(&mut b, 16 + 2 * i, *u);
    }
    b
}

const INFO_LENGTH_MISMATCH: i32 = 0xC000_0004u32 as i32;

#[test]
fn object_name_decodes_the_embedded_string() {
    let filled = object_name_bytes(&[0x5C, 0x44, 0x72, 0x69, 0x76, 0x65, 0x72]);
    let r = get_object_name(
        0xFFFF_1234,
        NtStatus(INFO_LENGTH_MISMATCH),
        filled.len() as u32,
        NtStatus(STATUS_SUCCESS),
        &filled,
    );
    assert_eq!(r, Ok(String::from("\\Driver")));
}

#[test]
fn null_object_has_no_name() {
    let r = get_object_name(0, NtStatus(INFO_LENGTH_MISMATCH), 0, NtStatus(STATUS_SUCCESS), &vec![]);
    assert_eq!(r, Err(STATUS_NOT_FOUND));
}

#[test]
fn unexpected_probe_answer_has_no_name() {
    let r = get_object_name(
        0xFFFF_1234,
        NtStatus(STATUS_SUCCESS),
        0,
        NtStatus(STATUS_SUCCESS),
        &vec![],
    );
    assert_eq!(r, Err(STATUS_NOT_FOUND));
}

#[test]
fn erroneous_fill_propagates_its_status() {
    let filled = object_name_bytes(&[0x41]);
    let denied = 0xC000_0022u32 as i32;
    let r = get_object_name(
        0xFFFF_1234,
        NtStatus(INFO_LENGTH_MISMATCH),
        filled.len() as u32,
        NtStatus(denied),
        &filled,
    );
    assert_eq!(r, Err(denied));
}

#[test]
fn undecodable_name_is_unsuccessful() {
    // A lone high surrogate is not valid UTF-16.
    let filled = object_name_bytes(&[0xD800]);
    let r = get_object_name(
        0xFFFF_1234,
        NtStatus(INFO_LENGTH_MISMATCH),
        filled.len() as u32,
        NtStatus(STATUS_SUCCESS),
        &filled,
    );
    assert_eq!(r, Err(STATUS_UNSUCCESSFUL));
}

#[test]
fn name_whose_declared_length_leaves_the_buffer_is_unsuccessful() {
    let mut filled = object_name_bytes(&[0x41]);
    put_u16(&mut filled, 0, 100);
    let r = get_object_name(
        0xFFFF_1234,
        NtStatus(INFO_LENGTH_MISMATCH),
        filled.len() as u32,
        NtStatus(STATUS_SUCCESS),
        &filled,
    );
    assert_eq!(r, Err(STATUS_UNSUCCESSFUL));
}

#[test]
fn unicode_string_from_slice_counts_bytes_and_round_trips() {
    let s = UnicodeString::from_slice(&vec![0x48, 0x69, 0x21]);
    assert_eq!(s.length, 6);
    assert_eq!(s.maximum_length, 6);
    assert_eq!(s.buffer, vec![0x48, 0x69, 0x21]);
    assert_eq!(s.as_slice(), vec![0x48, 0x69, 0x21]);
    assert_eq!(s.try_to_string(), Some(String::from("Hi!")));
}

#[test]
fn unicode_string_slice_and_decoding_follow_the_byte_length() {
    // The declared length is in bytes, so it selects length / 2 entries.
    let s = UnicodeString { length: 4, maximum_length: 6, buffer: vec![0x48, 0x69, 0x21] };
    assert_eq!(s.as_slice(), vec![0x48, 0x69]);
    assert_eq!(s.try_to_string(), Some(String::from("Hi")));
}

#[test]
fn module_get_export_delegates_to_the_table() {
    let rec_bytes = {
        let mut b = vec![0u8; 8];
        put_u32(&mut b, 0, 1);
        b.extend_from_slice(&module_record(0x4000, 0x100, 0, b"krnl\0"));
        b
    };
    let modules = get_kernel_modules(&snapshot_buffer(&rec_bytes)).unwrap();
    let table = synthetic_exports();
    assert_eq!(
        modules[0].get_export(&table, &b"NtClose".to_vec()),
        Some(0xFFFF_8000_3333_0000)
    );
    assert_eq!(modules[0].get_export(&table, &b"missing".to_vec()), None);
}

#[test]
fn set_value_information_hands_out_its_payload() {
    let info = winkernel::kernel::RegSetValueKeyInformation {
        object: 0x10,
        value_name: UnicodeString::from_slice(&vec![0x41]),
        title_index: 0,
        reg_type: 1,
        data: vec![1, 2, 3],
        call_context: 0,
        object_context: 0,
        reserved: 0,
    };
    assert_eq!(info.data(), &vec![1, 2, 3]);
}
