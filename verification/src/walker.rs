//! Record walker: iterates the two record shapes the host produces inside a
//! queried buffer.  A counted array holds `count` records of a fixed stride
//! at offsets 0, stride, 2*stride, ...; an offset-chained sequence embeds in
//! each record the byte offset, relative to itself, of the next record, with
//! 0 marking the last.  Every offset is checked against the declared buffer
//! length: a walk that would leave the buffer, or a chain that would not
//! advance, is reported as corruption instead of being followed.

use vstd::prelude::*;

use crate::vsb::VariableSizedBuffer;

verus! {

/// Why a walk was abandoned.
#[derive(Copy, Clone, PartialEq, Eq, Structural, Debug)]
pub enum WalkError {
    /// The declared records do not fit inside the declared buffer length.
    Truncated,
    /// A chain offset points outside the buffer.
    CorruptChain,
}

/// The little-endian 16-bit value at `off`.
pub open spec fn le_u16(b: Seq<u8>, off: int) -> int {
    b[off] + 0x100 * b[off + 1]
}

/// The little-endian 32-bit value at `off`.
pub open spec fn le_u32(b: Seq<u8>, off: int) -> int {
    b[off] + 0x100 * b[off + 1] + 0x1_0000 * b[off + 2] + 0x100_0000 * b[off + 3]
}

/// The little-endian 64-bit value at `off`.
pub open spec fn le_u64(b: Seq<u8>, off: int) -> int {
    le_u32(b, off) + 0x1_0000_0000 * le_u32(b, off + 4)
}

pub fn read_u16_le(b: &Vec<u8>, off: usize) -> (r: u16)
    requires
        off + 2 <= b@.len(),
    ensures
        r == le_u16(b@, off as int),
{
    // The vector's exec length bounds the index sums within usize.
    let n = b.len();
    assert(off + 2 <= n);
    let lo = b[off] as u16;
    let hi = b[off + 1] as u16;
    lo + hi * 0x100
}

pub fn read_u32_le(b: &Vec<u8>, off: usize) -> (r: u32)
    requires
        off + 4 <= b@.len(),
    ensures
        r == le_u32(b@, off as int),
{
    let n = b.len();
    assert(off + 4 <= n);
    let b0 = b[off] as u32;
    let b1 = b[off + 1] as u32;
    let b2 = b[off + 2] as u32;
    let b3 = b[off + 3] as u32;
    b0 + b1 * 0x100 + b2 * 0x1_0000 + b3 * 0x100_0000
}

pub fn read_u64_le(b: &Vec<u8>, off: usize) -> (r: u64)
    requires
        off + 8 <= b@.len(),
    ensures
        r == le_u64(b@, off as int),
{
    let n = b.len();
    assert(off + 8 <= n);
    let lo = read_u32_le(b, off) as u64;
    let hi = read_u32_le(b, off + 4) as u64;
    lo + hi * 0x1_0000_0000
}

/// The bytes of record `i` of a counted array that starts at `start` with
/// the given stride.
pub open spec fn counted_record(b: Seq<u8>, start: int, stride: int, i: int) -> Seq<u8> {
    b.subrange(start + i * stride, start + (i + 1) * stride)
}

/// Copy `len` bytes starting at `off`.
pub(crate) fn copy_range(b: &Vec<u8>, off: usize, len: usize) -> (r: Vec<u8>)
    requires
        off + len <= b@.len(),
    ensures
        r@ == b@.subrange(off as int, off as int + len as int),
{
    let n = b.len();
    let mut out: Vec<u8> = Vec::new();
    let mut i: usize = 0;
    while i < len
        invariant
            i <= len,
            off + len <= n,
            n == b@.len(),
            out@.len() == i,
            forall|j: int| 0 <= j < i ==> out@[j] == b@[off + j],
        decreases len - i,
    {
        out.push(b[off + i]);
        i = i + 1;
    }
    assert(out@ =~= b@.subrange(off as int, off as int + len as int));
    out
}

/// Read `count` records of `stride` bytes each, laid out back to back from
/// `start`, into an order-preserving sequence.  Succeeds exactly when the
/// whole declared array lies inside the buffer.
pub fn walk_counted(buf: &VariableSizedBuffer, start: usize, count: usize, stride: usize) -> (r:
    Result<Vec<Vec<u8>>, WalkError>)
    requires
        stride >= 1,
    ensures
        r is Ok <==> start <= buf@.len() && start + count * stride <= buf@.len(),
        r is Err ==> r == Err::<Vec<Vec<u8>>, WalkError>(WalkError::Truncated),
        r is Ok ==> r->Ok_0@.len() == count,
        r is Ok ==> forall|i: int|
            0 <= i < count ==> #[trigger] r->Ok_0@[i]@ == counted_record(
                buf@,
                start as int,
                stride as int,
                i,
            ),
{
    let bytes = buf.as_bytes();
    if start > bytes.len() {
        return Err(WalkError::Truncated);
    }
    let mut out: Vec<Vec<u8>> = Vec::new();
    let mut i: usize = 0;
    let mut off: usize = start;
    while i < count
        invariant
            stride >= 1,
            i <= count,
            off == start + i * stride,
            off <= bytes@.len(),
            bytes@ == buf@,
            out@.len() == i,
            forall|j: int|
                0 <= j < i ==> #[trigger] out@[j]@ == counted_record(
                    buf@,
                    start as int,
                    stride as int,
                    j,
                ),
        decreases count - i,
    {
        if bytes.len() < stride || off > bytes.len() - stride {
            proof {
                // The records already read fit; the next one does not, so
                // the whole declared array cannot fit either.
                assert(start + count * stride >= off + stride) by (nonlinear_arith)
                    requires
                        i < count,
                        stride >= 1,
                        off == start + i * stride,
                ;
            }
            return Err(WalkError::Truncated);
        }
        let rec = copy_range(bytes, off, stride);
        out.push(rec);
        proof {
            assert(start + (i + 1) * stride == off + stride) by (nonlinear_arith)
                requires
                    off == start + i * stride,
            ;
        }
        off = off + stride;
        i = i + 1;
    }
    assert(start + count * stride <= buf@.len());
    Ok(out)
}

/// The records of an offset-chained sequence read from position `pos`, each
/// `prefix` bytes of fixed prefix, or `None` where the chain is corrupt: a
/// record that does not fit before the declared length, or a forward offset
/// that leaves no room for the next record.  A chain offset of 0 ends the
/// walk; any other offset advances, so the walk always terminates.
pub open spec fn chain_records(b: Seq<u8>, pos: int, prefix: int) -> Option<Seq<Seq<u8>>>
    decreases b.len() - pos,
{
    if prefix < 4 || pos < 0 || pos + prefix > b.len() {
        None
    } else {
        let rec = b.subrange(pos, pos + prefix);
        let next = le_u32(b, pos);
        if next == 0 {
            Some(seq![rec])
        } else if pos + next + prefix <= b.len() {
            match chain_records(b, pos + next, prefix) {
                Some(rest) => Some(seq![rec] + rest),
                None => None,
            }
        } else {
            None
        }
    }
}

/// Every record of a well-formed chain is exactly `prefix` bytes long.
pub proof fn lemma_chain_record_lengths(b: Seq<u8>, pos: int, prefix: int)
    requires
        chain_records(b, pos, prefix) is Some,
    ensures
        forall|i: int|
            0 <= i < chain_records(b, pos, prefix)->0.len() ==> (#[trigger] chain_records(
                b,
                pos,
                prefix,
            )->0[i]).len() == prefix,
    decreases b.len() - pos,
{
    let next = le_u32(b, pos);
    if next != 0 {
        lemma_chain_record_lengths(b, pos + next, prefix);
        let rec = b.subrange(pos, pos + prefix);
        let rest = chain_records(b, pos + next, prefix)->0;
        assert(chain_records(b, pos, prefix)->0 == seq![rec] + rest);
        assert(forall|i: int|
            1 <= i < (seq![rec] + rest).len() ==> (#[trigger] (seq![rec] + rest)[i]) == rest[i - 1]);
    }
}

/// Walk an offset-chained record sequence from the head of the buffer,
/// copying each record's fixed `prefix` bytes in chain order.  The chain
/// offset is the 32-bit little-endian field at the head of each record.
pub fn walk_chained(buf: &VariableSizedBuffer, prefix: usize) -> (r: Result<
    Vec<Vec<u8>>,
    WalkError,
>)
    requires
        4 <= prefix,
    ensures
        r is Ok <==> chain_records(buf@, 0, prefix as int) is Some,
        r is Err ==> r == Err::<Vec<Vec<u8>>, WalkError>(WalkError::CorruptChain),
        r is Ok ==> Some(r->Ok_0@.map_values(|v: Vec<u8>| v@)) == chain_records(
            buf@,
            0,
            prefix as int,
        ),
{
    let bytes = buf.as_bytes();
    let mut out: Vec<Vec<u8>> = Vec::new();
    let mut pos: usize = 0;
    loop
        invariant
            4 <= prefix,
            bytes@ == buf@,
            pos <= bytes@.len(),
            chain_records(buf@, 0, prefix as int) is Some <==> chain_records(
                buf@,
                pos as int,
                prefix as int,
            ) is Some,
            chain_records(buf@, pos as int, prefix as int) is Some ==> chain_records(
                buf@,
                0,
                prefix as int,
            )->0 == out@.map_values(|v: Vec<u8>| v@) + chain_records(
                buf@,
                pos as int,
                prefix as int,
            )->0,
        decreases bytes@.len() - pos,
    {
        if bytes.len() < prefix || pos > bytes.len() - prefix {
            return Err(WalkError::CorruptChain);
        }
        let rec = copy_range(bytes, pos, prefix);
        let next = read_u32_le(bytes, pos);
        let ghost prev_out = out@;
        out.push(rec);
        proof {
            assert(out@.map_values(|v: Vec<u8>| v@) =~= prev_out.map_values(|v: Vec<u8>| v@)
                + seq![rec@]);
        }
        if next == 0 {
            proof {
                assert(chain_records(buf@, pos as int, prefix as int) == Some(seq![rec@]));
                assert(out@.map_values(|v: Vec<u8>| v@) =~= prev_out.map_values(|v: Vec<u8>| v@)
                    + chain_records(buf@, pos as int, prefix as int)->0);
            }
            return Ok(out);
        }
        // The host's offset is relative to the current record; a forward
        // step that leaves no room for the next record is corruption.
        if next as usize > bytes.len() || pos > bytes.len() - next as usize || bytes.len() < prefix
            || pos + next as usize > bytes.len() - prefix {
            return Err(WalkError::CorruptChain);
        }
        proof {
            let tail = chain_records(buf@, pos + next, prefix as int);
            assert(chain_records(buf@, pos as int, prefix as int) == (match tail {
                Some(rest) => Some(seq![rec@] + rest),
                None => None::<Seq<Seq<u8>>>,
            }));
            if tail is Some {
                assert(seq![rec@] + tail->0 == chain_records(buf@, pos as int, prefix as int)->0);
                assert(prev_out.map_values(|v: Vec<u8>| v@) + (seq![rec@] + tail->0)
                    =~= out@.map_values(|v: Vec<u8>| v@) + tail->0);
            }
        }
        pos = pos + next as usize;
    }
}

} // verus!
