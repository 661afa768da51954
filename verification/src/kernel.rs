//! Snapshots of kernel state: the module list and process list produced by
//! the probe/fill query protocol, walked and parsed with every offset
//! checked; the export resolver; the object-name query; and the physical
//! read with exact-length semantics.
//!
//! The record layouts mirror the host's native field offsets, sizes and
//! alignment exactly, read little-endian out of the queried buffer.

use vstd::prelude::*;

use crate::basedef::{
    NTSTATUS, STATUS_INFO_LENGTH_MISMATCH, STATUS_NOT_FOUND, STATUS_PARTIAL_COPY,
    STATUS_UNSUCCESSFUL,
};
use crate::ntstatus::{spec_is_error, NtStatus};
use crate::process::CopyResponse;
use crate::string::{decode_utf16, utf16_decoding};
use crate::vsb::VariableSizedBuffer;
use crate::walker::{
    counted_record, le_u16, le_u32, le_u64, read_u16_le, read_u32_le, read_u64_le, walk_chained,
    walk_counted, WalkError,
};

verus! {

/// Access the host grants when locking pages.
#[allow(non_camel_case_types)]
#[derive(Copy, Clone, PartialEq, Eq, Structural, Debug)]
pub enum LOCK_OPERATION {
    IoReadAccess,
    IoWriteAccess,
    IoModifyAccess,
}

/// Caching behaviour of a temporary mapping.
#[allow(non_camel_case_types)]
#[derive(Copy, Clone, PartialEq, Eq, Structural, Debug)]
pub enum MEMORY_CACHING_TYPE {
    MmNonCached,
    MmCached,
    MmWriteCombined,
    MmHardwareCoherentCached,
    MmNonCachedUnordered,
    MmUSWCCached,
    MmMaximumCacheType,
    MmNotMapped,
}

/// The byte size of one fixed-layout module record.
pub const MODULE_RECORD_SIZE: usize = 296;

/// The bytes before the module array: the 32-bit module count, padded to
/// the array's alignment.
pub const MODULE_LIST_HEADER_SIZE: usize = 8;

/// The byte size of one process record's fixed prefix; the per-thread
/// array behind it is not carried into the parsed record.
pub const PROCESS_RECORD_SIZE: usize = 256;

/// The signed value whose 64-bit two's-complement pattern is `bits`.
pub open spec fn signed64(bits: int) -> int {
    if bits < 0x8000_0000_0000_0000 {
        bits
    } else {
        bits - 0x1_0000_0000_0000_0000
    }
}

/// The signed value whose 32-bit two's-complement pattern is `bits`.
pub open spec fn signed32(bits: int) -> int {
    if bits < 0x8000_0000 {
        bits
    } else {
        bits - 0x1_0000_0000
    }
}

fn i64_from_bits(bits: u64) -> (r: i64)
    ensures
        r == signed64(bits as int),
{
    if bits < 0x8000_0000_0000_0000 {
        bits as i64
    } else {
        let delta = bits - 0x8000_0000_0000_0000;
        i64::MIN + (delta as i64)
    }
}

fn i32_from_bits(bits: u32) -> (r: i32)
    ensures
        r == signed32(bits as int),
{
    if bits < 0x8000_0000 {
        bits as i32
    } else {
        let delta = bits - 0x8000_0000;
        i32::MIN + (delta as i32)
    }
}

/// A fixed-layout descriptor of one loaded image, parsed out of a module
/// snapshot record.
#[derive(PartialEq, Eq, Debug)]
pub struct ProcessModuleInformation {
    pub section: u64,
    pub mapped_base: u64,
    pub image_base: u64,
    pub image_size: u32,
    pub flags: u32,
    pub load_order_index: u16,
    pub init_order_index: u16,
    pub load_count: u16,
    pub offset_to_file_name: u16,
    pub full_path_name: Vec<u8>,
}

/// The field equations tying a parsed module record to the bytes of its
/// snapshot record.
pub open spec fn module_record_matches(m: ProcessModuleInformation, b: Seq<u8>) -> bool {
    &&& m.section == le_u64(b, 0)
    &&& m.mapped_base == le_u64(b, 8)
    &&& m.image_base == le_u64(b, 16)
    &&& m.image_size == le_u32(b, 24)
    &&& m.flags == le_u32(b, 28)
    &&& m.load_order_index == le_u16(b, 32)
    &&& m.init_order_index == le_u16(b, 34)
    &&& m.load_count == le_u16(b, 36)
    &&& m.offset_to_file_name == le_u16(b, 38)
    &&& m.full_path_name@ == b.subrange(40, 296)
}

/// Parse one module record from its bytes.
pub fn parse_module_record(rec: &Vec<u8>) -> (r: ProcessModuleInformation)
    requires
        rec@.len() == MODULE_RECORD_SIZE,
    ensures
        module_record_matches(r, rec@),
{
    ProcessModuleInformation {
        section: read_u64_le(rec, 0),
        mapped_base: read_u64_le(rec, 8),
        image_base: read_u64_le(rec, 16),
        image_size: read_u32_le(rec, 24),
        flags: read_u32_le(rec, 28),
        load_order_index: read_u16_le(rec, 32),
        init_order_index: read_u16_le(rec, 34),
        load_count: read_u16_le(rec, 36),
        offset_to_file_name: read_u16_le(rec, 38),
        full_path_name: crate::walker::copy_range(rec, 40, 256),
    }
}

impl ProcessModuleInformation {
    /// The embedded path: the bytes before the first 0 byte of the
    /// fixed-size path field.
    pub fn full_path(&self) -> (r: Vec<u8>)
        ensures
            r@.len() <= self.full_path_name@.len(),
            r@ == self.full_path_name@.subrange(0, r@.len() as int),
            forall|j: int| 0 <= j < r@.len() ==> self.full_path_name@[j] != 0,
            r@.len() < self.full_path_name@.len() ==> self.full_path_name@[r@.len() as int] == 0,
    {
        let n = crate::util::nul_terminated_length(&self.full_path_name);
        crate::walker::copy_range(&self.full_path_name, 0, n)
    }

    /// Resolve an exported routine of this module against its export
    /// table.
    pub fn get_export(&self, exports: &ExportTable, func_name: &Vec<u8>) -> (r: Option<u64>)
        requires
            forall|i: int| 0 <= i < func_name@.len() ==> func_name@[i] != 0,
        ensures
            (r is None) <==> no_export_named(exports.entries@, func_name@),
            r is Some ==> exists|i: int|
                #[trigger] is_first_export_match(exports.entries@, func_name@, i) && r->0
                    == exports.entries@[i].address,
    {
        get_kernel_export(exports, func_name)
    }
}

/// A snapshot of every loaded module: the 32-bit record count, then the
/// records back to back.  Fails as Truncated when the declared count does
/// not fit inside the declared buffer length.
pub fn get_kernel_modules(buf: &VariableSizedBuffer) -> (r: Result<
    Vec<ProcessModuleInformation>,
    WalkError,
>)
    ensures
        r is Ok <==> buf@.len() >= MODULE_LIST_HEADER_SIZE && MODULE_LIST_HEADER_SIZE + le_u32(
            buf@,
            0,
        ) * MODULE_RECORD_SIZE <= buf@.len(),
        r is Err ==> r == Err::<Vec<ProcessModuleInformation>, WalkError>(WalkError::Truncated),
        r is Ok ==> r->Ok_0@.len() == le_u32(buf@, 0),
        r is Ok ==> forall|i: int|
            0 <= i < r->Ok_0@.len() ==> #[trigger] module_record_matches(
                r->Ok_0@[i],
                counted_record(buf@, MODULE_LIST_HEADER_SIZE as int, MODULE_RECORD_SIZE as int, i),
            ),
{
    let bytes = buf.as_bytes();
    if bytes.len() < MODULE_LIST_HEADER_SIZE {
        return Err(WalkError::Truncated);
    }
    let count = read_u32_le(bytes, 0) as usize;
    let recs = match walk_counted(buf, MODULE_LIST_HEADER_SIZE, count, MODULE_RECORD_SIZE) {
        Ok(recs) => recs,
        Err(e) => {
            return Err(e);
        },
    };
    let mut out: Vec<ProcessModuleInformation> = Vec::new();
    let mut i: usize = 0;
    while i < recs.len()
        invariant
            i <= recs@.len(),
            out@.len() == i,
            forall|j: int| 0 <= j < recs@.len() ==> (#[trigger] recs@[j]@).len()
                == MODULE_RECORD_SIZE,
            forall|j: int|
                0 <= j < recs@.len() ==> #[trigger] recs@[j]@ == counted_record(
                    buf@,
                    MODULE_LIST_HEADER_SIZE as int,
                    MODULE_RECORD_SIZE as int,
                    j,
                ),
            forall|j: int|
                0 <= j < i ==> #[trigger] module_record_matches(
                    out@[j],
                    counted_record(
                        buf@,
                        MODULE_LIST_HEADER_SIZE as int,
                        MODULE_RECORD_SIZE as int,
                        j,
                    ),
                ),
        decreases recs@.len() - i,
    {
        out.push(parse_module_record(&recs[i]));
        i = i + 1;
    }
    Ok(out)
}

/// One process snapshot record's fixed prefix, every field a plain value;
/// the embedded counted name keeps its declared lengths and raw buffer
/// address, and the per-thread array that trails the prefix is left in the
/// buffer.
#[derive(PartialEq, Eq, Debug)]
pub struct SystemProcessInformation {
    pub next_entry_offset: u32,
    pub number_of_threads: u32,
    pub working_set_private_size: i64,
    pub hard_fault_count: u32,
    pub number_of_threads_high_watermark: u32,
    pub cycle_time: u64,
    pub create_time: i64,
    pub user_time: i64,
    pub kernel_time: i64,
    pub image_name_length: u16,
    pub image_name_maximum_length: u16,
    pub image_name_buffer: u64,
    pub base_priority: i32,
    pub unique_process_id: u64,
    pub inherited_from_unique_process_id: u64,
    pub handle_count: u32,
    pub session_id: u32,
    pub unique_process_key: u64,
    pub peak_virtual_size: u64,
    pub virtual_size: u64,
    pub page_fault_count: u32,
    pub peak_working_set_size: u64,
    pub working_set_size: u64,
    pub quota_peak_paged_pool_usage: u64,
    pub quota_paged_pool_usage: u64,
    pub quota_peak_non_paged_pool_usage: u64,
    pub quota_non_paged_pool_usage: u64,
    pub pagefile_usage: u64,
    pub peak_pagefile_usage: u64,
    pub private_page_count: u64,
    pub read_operation_count: i64,
    pub write_operation_count: i64,
    pub other_operation_count: i64,
    pub read_transfer_count: i64,
    pub write_transfer_count: i64,
    pub other_transfer_count: i64,
}

/// The field equations tying a parsed process record to the bytes of its
/// fixed prefix.
pub open spec fn process_record_matches(p: SystemProcessInformation, b: Seq<u8>) -> bool {
    &&& p.next_entry_offset == le_u32(b, 0)
    &&& p.number_of_threads == le_u32(b, 4)
    &&& p.working_set_private_size == signed64(le_u64(b, 8))
    &&& p.hard_fault_count == le_u32(b, 16)
    &&& p.number_of_threads_high_watermark == le_u32(b, 20)
    &&& p.cycle_time == le_u64(b, 24)
    &&& p.create_time == signed64(le_u64(b, 32))
    &&& p.user_time == signed64(le_u64(b, 40))
    &&& p.kernel_time == signed64(le_u64(b, 48))
    &&& p.image_name_length == le_u16(b, 56)
    &&& p.image_name_maximum_length == le_u16(b, 58)
    &&& p.image_name_buffer == le_u64(b, 64)
    &&& p.base_priority == signed32(le_u32(b, 72))
    &&& p.unique_process_id == le_u64(b, 80)
    &&& p.inherited_from_unique_process_id == le_u64(b, 88)
    &&& p.handle_count == le_u32(b, 96)
    &&& p.session_id == le_u32(b, 100)
    &&& p.unique_process_key == le_u64(b, 104)
    &&& p.peak_virtual_size == le_u64(b, 112)
    &&& p.virtual_size == le_u64(b, 120)
    &&& p.page_fault_count == le_u32(b, 128)
    &&& p.peak_working_set_size == le_u64(b, 136)
    &&& p.working_set_size == le_u64(b, 144)
    &&& p.quota_peak_paged_pool_usage == le_u64(b, 152)
    &&& p.quota_paged_pool_usage == le_u64(b, 160)
    &&& p.quota_peak_non_paged_pool_usage == le_u64(b, 168)
    &&& p.quota_non_paged_pool_usage == le_u64(b, 176)
    &&& p.pagefile_usage == le_u64(b, 184)
    &&& p.peak_pagefile_usage == le_u64(b, 192)
    &&& p.private_page_count == le_u64(b, 200)
    &&& p.read_operation_count == signed64(le_u64(b, 208))
    &&& p.write_operation_count == signed64(le_u64(b, 216))
    &&& p.other_operation_count == signed64(le_u64(b, 224))
    &&& p.read_transfer_count == signed64(le_u64(b, 232))
    &&& p.write_transfer_count == signed64(le_u64(b, 240))
    &&& p.other_transfer_count == signed64(le_u64(b, 248))
}

/// Parse one process record's fixed prefix from its bytes.
pub fn parse_process_record(rec: &Vec<u8>) -> (r: SystemProcessInformation)
    requires
        rec@.len() == PROCESS_RECORD_SIZE,
    ensures
        process_record_matches(r, rec@),
{
    SystemProcessInformation {
        next_entry_offset: read_u32_le(rec, 0),
        number_of_threads: read_u32_le(rec, 4),
        working_set_private_size: i64_from_bits(read_u64_le(rec, 8)),
        hard_fault_count: read_u32_le(rec, 16),
        number_of_threads_high_watermark: read_u32_le(rec, 20),
        cycle_time: read_u64_le(rec, 24),
        create_time: i64_from_bits(read_u64_le(rec, 32)),
        user_time: i64_from_bits(read_u64_le(rec, 40)),
        kernel_time: i64_from_bits(read_u64_le(rec, 48)),
        image_name_length: read_u16_le(rec, 56),
        image_name_maximum_length: read_u16_le(rec, 58),
        image_name_buffer: read_u64_le(rec, 64),
        base_priority: i32_from_bits(read_u32_le(rec, 72)),
        unique_process_id: read_u64_le(rec, 80),
        inherited_from_unique_process_id: read_u64_le(rec, 88),
        handle_count: read_u32_le(rec, 96),
        session_id: read_u32_le(rec, 100),
        unique_process_key: read_u64_le(rec, 104),
        peak_virtual_size: read_u64_le(rec, 112),
        virtual_size: read_u64_le(rec, 120),
        page_fault_count: read_u32_le(rec, 128),
        peak_working_set_size: read_u64_le(rec, 136),
        working_set_size: read_u64_le(rec, 144),
        quota_peak_paged_pool_usage: read_u64_le(rec, 152),
        quota_paged_pool_usage: read_u64_le(rec, 160),
        quota_peak_non_paged_pool_usage: read_u64_le(rec, 168),
        quota_non_paged_pool_usage: read_u64_le(rec, 176),
        pagefile_usage: read_u64_le(rec, 184),
        peak_pagefile_usage: read_u64_le(rec, 192),
        private_page_count: read_u64_le(rec, 200),
        read_operation_count: i64_from_bits(read_u64_le(rec, 208)),
        write_operation_count: i64_from_bits(read_u64_le(rec, 216)),
        other_operation_count: i64_from_bits(read_u64_le(rec, 224)),
        read_transfer_count: i64_from_bits(read_u64_le(rec, 232)),
        write_transfer_count: i64_from_bits(read_u64_le(rec, 240)),
        other_transfer_count: i64_from_bits(read_u64_le(rec, 248)),
    }
}

/// A snapshot of every running process: an offset-chained sequence of
/// records inside one allocation, walked until the record whose chain
/// offset is 0, each record's fixed prefix parsed in chain order.  A chain
/// offset that leaves the buffer is reported as corruption.
pub fn get_process_list(buf: &VariableSizedBuffer) -> (r: Result<
    Vec<SystemProcessInformation>,
    WalkError,
>)
    ensures
        r is Ok <==> crate::walker::chain_records(buf@, 0, PROCESS_RECORD_SIZE as int) is Some,
        r is Err ==> r == Err::<Vec<SystemProcessInformation>, WalkError>(WalkError::CorruptChain),
        r is Ok ==> {
            let recs = crate::walker::chain_records(buf@, 0, PROCESS_RECORD_SIZE as int)->0;
            &&& r->Ok_0@.len() == recs.len()
            &&& forall|i: int|
                0 <= i < recs.len() ==> #[trigger] process_record_matches(r->Ok_0@[i], recs[i])
        },
{
    let recs = match walk_chained(buf, PROCESS_RECORD_SIZE) {
        Ok(recs) => recs,
        Err(e) => {
            return Err(e);
        },
    };
    let ghost chain = crate::walker::chain_records(buf@, 0, PROCESS_RECORD_SIZE as int)->0;
    proof {
        crate::walker::lemma_chain_record_lengths(buf@, 0, PROCESS_RECORD_SIZE as int);
    }
    let mut out: Vec<SystemProcessInformation> = Vec::new();
    let mut i: usize = 0;
    while i < recs.len()
        invariant
            i <= recs@.len(),
            out@.len() == i,
            chain == recs@.map_values(|v: Vec<u8>| v@),
            forall|j: int|
                0 <= j < chain.len() ==> (#[trigger] chain[j]).len() == PROCESS_RECORD_SIZE,
            forall|j: int| 0 <= j < i ==> #[trigger] process_record_matches(out@[j], chain[j]),
        decreases recs@.len() - i,
    {
        assert(chain[i as int] == recs@[i as int]@);
        assert(chain[i as int].len() == PROCESS_RECORD_SIZE);
        out.push(parse_process_record(&recs[i]));
        i = i + 1;
    }
    Ok(out)
}

/// One published export: a routine name and its resolved address.
pub struct ExportEntry {
    pub name: Vec<u8>,
    pub address: u64,
}

/// A module's export directory, in its published order.
pub struct ExportTable {
    pub entries: Vec<ExportEntry>,
}

/// No entry carries this name.
pub open spec fn no_export_named(entries: Seq<ExportEntry>, name: Seq<u8>) -> bool {
    forall|i: int| 0 <= i < entries.len() ==> (#[trigger] entries[i].name@) != name
}

/// Entry `i` is the first entry carrying this name.
pub open spec fn is_first_export_match(entries: Seq<ExportEntry>, name: Seq<u8>, i: int) -> bool {
    &&& 0 <= i < entries.len()
    &&& entries[i].name@ == name
    &&& forall|j: int| 0 <= j < i ==> (#[trigger] entries[j].name@) != name
}

fn bytes_equal(a: &Vec<u8>, b: &Vec<u8>) -> (r: bool)
    ensures
        r == (a@ == b@),
{
    let n = a.len();
    if n != b.len() {
        return false;
    }
    let mut i: usize = 0;
    while i < n
        invariant
            i <= n,
            n == a@.len(),
            n == b@.len(),
            forall|j: int| 0 <= j < i ==> a@[j] == b@[j],
        decreases n - i,
    {
        if a[i] != b[i] {
            return false;
        }
        i = i + 1;
    }
    assert(a@ =~= b@);
    true
}

/// Resolve a named exported routine against a module's export table: the
/// first entry carrying the name gives the address; an absent name
/// resolves to none.  The name is an identifier with no embedded 0 byte.
/// Pure lookup: nothing is mutated and nothing is cached across calls.
pub fn get_kernel_export(table: &ExportTable, func_name: &Vec<u8>) -> (r: Option<u64>)
    requires
        forall|i: int| 0 <= i < func_name@.len() ==> func_name@[i] != 0,
    ensures
        (r is None) <==> no_export_named(table.entries@, func_name@),
        r is Some ==> exists|i: int|
            #[trigger] is_first_export_match(table.entries@, func_name@, i) && r->0
                == table.entries@[i].address,
{
    let n = table.entries.len();
    let mut i: usize = 0;
    while i < n
        invariant
            i <= n,
            n == table.entries@.len(),
            forall|j: int| 0 <= j < i ==> (#[trigger] table.entries@[j].name@) != func_name@,
        decreases n - i,
    {
        if bytes_equal(&table.entries[i].name, func_name) {
            assert(is_first_export_match(table.entries@, func_name@, i as int));
            return Some(table.entries[i].address);
        }
        i = i + 1;
    }
    None
}

/// The code units embedded in an object-name answer: a counted string
/// descriptor at the head of the buffer, its character data following the
/// descriptor, or `None` where the declared length is odd or leaves the
/// buffer.
pub open spec fn object_name_units(b: Seq<u8>) -> Option<Seq<u16>> {
    if b.len() < 16 {
        None
    } else {
        let len = le_u16(b, 0);
        if len % 2 != 0 || 16 + len > b.len() {
            None
        } else {
            Some(Seq::new((len / 2) as nat, |i: int| le_u16(b, 16 + 2 * i) as u16))
        }
    }
}

/// The result the object-name query owes: a null object or a probe that
/// did not answer with the length-mismatch code has no name; an erroneous
/// fill propagates its status; a malformed or undecodable answer is
/// unsuccessful; otherwise the decoded name.
pub open spec fn object_name_outcome(
    object: u64,
    probe_status: NTSTATUS,
    fill_status: NTSTATUS,
    filled: Seq<u8>,
) -> Result<Seq<char>, NTSTATUS> {
    if object == 0 {
        Err(STATUS_NOT_FOUND)
    } else if probe_status != STATUS_INFO_LENGTH_MISMATCH {
        Err(STATUS_NOT_FOUND)
    } else if spec_is_error(fill_status) {
        Err(fill_status)
    } else {
        match object_name_units(filled) {
            None => Err(STATUS_UNSUCCESSFUL),
            Some(units) => match utf16_decoding(units) {
                None => Err(STATUS_UNSUCCESSFUL),
                Some(cs) => Ok(cs),
            },
        }
    }
}

/// Query the name of a kernel object through the probe/fill protocol:
/// `probe_status` and `probe_len` are the zero-capacity call's answer, and
/// `fill_status` with `filled` are the outcome of the second call on a
/// buffer of exactly the probed length.
pub fn get_object_name(
    object: u64,
    probe_status: NtStatus,
    probe_len: u32,
    fill_status: NtStatus,
    filled: &Vec<u8>,
) -> (r: Result<String, NTSTATUS>)
    requires
        filled@.len() == probe_len,
    ensures
        match object_name_outcome(object, probe_status.0, fill_status.0, filled@) {
            Ok(cs) => r is Ok && r->Ok_0@ == cs,
            Err(e) => r == Err::<String, NTSTATUS>(e),
        },
{
    if object == 0 {
        return Err(STATUS_NOT_FOUND);
    }
    if probe_status.0 != STATUS_INFO_LENGTH_MISMATCH {
        return Err(STATUS_NOT_FOUND);
    }
    let mut buf = VariableSizedBuffer::allocate(probe_len as usize);
    buf.fill(filled);
    if fill_status.is_error() {
        return Err(fill_status.0);
    }
    let bytes = buf.as_bytes();
    let n = bytes.len();
    if n < 16 {
        return Err(STATUS_UNSUCCESSFUL);
    }
    let declared = read_u16_le(bytes, 0) as usize;
    if declared % 2 != 0 || declared > n - 16 {
        return Err(STATUS_UNSUCCESSFUL);
    }
    let count = declared / 2;
    let mut units: Vec<u16> = Vec::new();
    let mut i: usize = 0;
    while i < count
        invariant
            i <= count,
            16 + 2 * count <= n,
            n == bytes@.len(),
            bytes@ == filled@,
            units@.len() == i,
            forall|j: int| 0 <= j < i ==> units@[j] == le_u16(bytes@, 16 + 2 * j) as u16,
        decreases count - i,
    {
        units.push(read_u16_le(bytes, 16 + 2 * i));
        i = i + 1;
    }
    assert(units@ =~= object_name_units(filled@)->0);
    match decode_utf16(&units) {
        Some(s) => Ok(s),
        None => Err(STATUS_UNSUCCESSFUL),
    }
}

/// Copy from physical memory into a caller's buffer of `buf_len` bytes.
/// An erroneous host status propagates; a short transfer under a
/// non-Error status is a partial copy, an error kept distinct from the
/// cross-process copy's unsuccessful promotion.
pub fn read_physical(buf_len: usize, host: &CopyResponse) -> (r: Result<(), NTSTATUS>)
    requires
        host.bytes_copied <= buf_len,
    ensures
        spec_is_error(host.status) ==> r == Err::<(), NTSTATUS>(host.status),
        !spec_is_error(host.status) && host.bytes_copied < buf_len ==> r == Err::<(), NTSTATUS>(
            STATUS_PARTIAL_COPY,
        ),
        !spec_is_error(host.status) && host.bytes_copied == buf_len ==> r == Ok::<(), NTSTATUS>(()),
{
    let status = NtStatus(host.status);
    match status.to_result() {
        Err(e) => Err(e),
        Ok(()) => {
            if host.bytes_copied < buf_len {
                Err(STATUS_PARTIAL_COPY)
            } else {
                Ok(())
            }
        },
    }
}

/// Classes of registry operation a registry callback observes.
#[derive(Copy, Clone, PartialEq, Eq, Structural, Debug)]
pub enum RegNotifyClass {
    RegNtPreDeleteKey,
    RegNtPreSetValueKey,
    RegNtPreDeleteValueKey,
    RegNtPreSetInformationKey,
    RegNtPreRenameKey,
    RegNtPreEnumerateKey,
    RegNtPreEnumerateValueKey,
    RegNtPreQueryKey,
    RegNtPreQueryValueKey,
    RegNtPreQueryMultipleValueKey,
    RegNtPreCreateKey,
    RegNtPostCreateKey,
    RegNtPreOpenKey,
    RegNtPostOpenKey,
    RegNtPreKeyHandleClose,
    RegNtPostDeleteKey,
    RegNtPostSetValueKey,
    RegNtPostDeleteValueKey,
    RegNtPostSetInformationKey,
    RegNtPostRenameKey,
    RegNtPostEnumerateKey,
    RegNtPostEnumerateValueKey,
    RegNtPostQueryKey,
    RegNtPostQueryValueKey,
    RegNtPostQueryMultipleValueKey,
    RegNtPostKeyHandleClose,
    RegNtPreCreateKeyEx,
    RegNtPostCreateKeyEx,
    RegNtPreOpenKeyEx,
    RegNtPostOpenKeyEx,
    RegNtPreFlushKey,
    RegNtPostFlushKey,
    RegNtPreLoadKey,
    RegNtPostLoadKey,
    RegNtPreUnLoadKey,
    RegNtPostUnLoadKey,
    RegNtPreQueryKeySecurity,
    RegNtPostQueryKeySecurity,
    RegNtPreSetKeySecurity,
    RegNtPostSetKeySecurity,
    RegNtCallbackObjectContextCleanup,
    MaxRegNtNotifyClass,
}

/// The cookie the host hands back when a registry callback is registered;
/// unregistering presents it again.
#[derive(Copy, Clone, PartialEq, Eq, Structural, Debug)]
pub struct RegistryCallback(pub u64);

/// What a set-value registry operation carries, its payload landed as
/// owned bytes.
pub struct RegSetValueKeyInformation {
    pub object: u64,
    pub value_name: crate::string::UnicodeString,
    pub title_index: u32,
    pub reg_type: u32,
    pub data: Vec<u8>,
    pub call_context: u64,
    pub object_context: u64,
    pub reserved: u64,
}

impl RegSetValueKeyInformation {
    /// The value's payload bytes.
    pub fn data(&self) -> (r: &Vec<u8>)
        ensures
            r@ == self.data@,
    {
        &self.data
    }
}

} // verus!
