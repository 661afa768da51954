//! Variable-sized buffer: an exclusively owned, runtime-length block of
//! bytes, logically a fixed header followed by a flexible tail.  It lands
//! data whose size is unknown until queried; the backing storage is owned
//! and is released exactly once, when the owner goes out of scope.

use vstd::prelude::*;

verus! {

pub struct VariableSizedBuffer {
    bytes: Vec<u8>,
}

impl View for VariableSizedBuffer {
    type V = Seq<u8>;

    closed spec fn view(&self) -> Seq<u8> {
        self.bytes@
    }
}

impl VariableSizedBuffer {
    /// A zero-filled buffer of exactly `byte_size` bytes.  Exhaustion of the
    /// backing allocator aborts rather than returning, so the buffer handed
    /// back always has the requested length.
    pub fn allocate(byte_size: usize) -> (r: VariableSizedBuffer)
        ensures
            r@.len() == byte_size,
            forall|i: int| 0 <= i < byte_size ==> r@[i] == 0u8,
    {
        let mut bytes: Vec<u8> = Vec::new();
        let mut i: usize = 0;
        while i < byte_size
            invariant
                i <= byte_size,
                bytes@.len() == i,
                forall|j: int| 0 <= j < i ==> bytes@[j] == 0u8,
            decreases byte_size - i,
        {
            bytes.push(0u8);
            i = i + 1;
        }
        VariableSizedBuffer { bytes }
    }

    /// The declared length of the block, against which every tail offset
    /// must be checked.
    pub fn len(&self) -> (r: usize)
        ensures
            r == self@.len(),
    {
        self.bytes.len()
    }

    /// The raw bytes of the block.
    pub fn as_bytes(&self) -> (r: &Vec<u8>)
        ensures
            r@ == self@,
    {
        &self.bytes
    }

    /// The first `header_size` bytes, reinterpreted as the fixed header.
    /// Callers never read past the declared length, so the header must fit.
    pub fn header_view(&self, header_size: usize) -> (r: Vec<u8>)
        requires
            header_size <= self@.len(),
        ensures
            r@ == self@.subrange(0, header_size as int),
    {
        let mut out: Vec<u8> = Vec::new();
        let mut i: usize = 0;
        while i < header_size
            invariant
                i <= header_size,
                header_size <= self@.len(),
                out@.len() == i,
                forall|j: int| 0 <= j < i ==> out@[j] == self@[j],
            decreases header_size - i,
        {
            out.push(self.bytes[i]);
            i = i + 1;
        }
        assert(out@ =~= self@.subrange(0, header_size as int));
        out
    }

    /// Overwrite the whole block with what the host produced for it; the
    /// host fills exactly the capacity it was handed.
    pub fn fill(&mut self, data: &Vec<u8>)
        requires
            old(self)@.len() == data@.len(),
        ensures
            final(self)@ == data@,
    {
        let mut bytes: Vec<u8> = Vec::new();
        let mut i: usize = 0;
        while i < data.len()
            invariant
                i <= data@.len(),
                bytes@.len() == i,
                forall|j: int| 0 <= j < i ==> bytes@[j] == data@[j],
            decreases data@.len() - i,
        {
            bytes.push(data[i]);
            i = i + 1;
        }
        assert(bytes@ =~= data@);
        self.bytes = bytes;
    }
}

} // verus!
