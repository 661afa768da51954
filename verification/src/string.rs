//! A counted Unicode string: a length in bytes, a capacity in bytes, and
//! the buffer of 16-bit code units the length counts into.

use vstd::prelude::*;

verus! {

/// What decoding a sequence of UTF-16 code units yields, if they are
/// valid.  The decoding is named rather than written out; the host
/// library computes it.
pub uninterp spec fn utf16_decoding(units: Seq<u16>) -> Option<Seq<char>>;

/// Relies on alloc's `String::from_utf16`: the result is a function of the
/// code units alone, `Some` exactly on valid UTF-16.
#[verifier::external_body]
pub(crate) fn decode_utf16(units: &Vec<u16>) -> (r: Option<String>)
    ensures
        (r is Some) == (utf16_decoding(units@) is Some),
        r is Some ==> r->0@ == utf16_decoding(units@)->0,
{
    String::from_utf16(units.as_slice()).ok()
}

/// A counted Unicode string.
pub struct UnicodeString {
    /// The length in **bytes** of the string stored in `buffer`.
    pub length: u16,
    /// The length in **bytes** that `buffer` has room for.
    pub maximum_length: u16,
    /// The 16-bit code units.
    pub buffer: Vec<u16>,
}

impl UnicodeString {
    /// The declared length counts into the buffer: the string's code units
    /// are the first `length / 2` entries.
    pub open spec fn wf(self) -> bool {
        self.length as int / 2 <= self.buffer@.len()
    }

    /// The code units the declared length selects.
    pub open spec fn spec_units(self) -> Seq<u16> {
        self.buffer@.subrange(0, self.length as int / 2)
    }

    /// Build a counted string over a copy of the given code units; the
    /// declared lengths count their bytes, so the string selects every
    /// unit of the slice.
    pub fn from_slice(slice: &Vec<u16>) -> (r: Self)
        requires
            2 * slice@.len() <= 0xFFFF,
        ensures
            r.length == 2 * slice@.len(),
            r.maximum_length == 2 * slice@.len(),
            r.buffer@ == slice@,
            r.spec_units() == slice@,
            r.wf(),
    {
        let n = slice.len();
        let mut buffer: Vec<u16> = Vec::new();
        let mut i: usize = 0;
        while i < n
            invariant
                i <= n,
                n == slice@.len(),
                buffer@.len() == i,
                forall|j: int| 0 <= j < i ==> buffer@[j] == slice@[j],
            decreases n - i,
        {
            buffer.push(slice[i]);
            i = i + 1;
        }
        assert(buffer@ =~= slice@);
        let byte_len = (2 * n) as u16;
        let r = UnicodeString { length: byte_len, maximum_length: byte_len, buffer };
        assert(r.spec_units() =~= slice@);
        r
    }

    /// The code units the declared length selects, as an owned vector.
    pub fn as_slice(&self) -> (r: Vec<u16>)
        requires
            self.wf(),
        ensures
            r@ == self.spec_units(),
    {
        let n = (self.length / 2) as usize;
        let mut out: Vec<u16> = Vec::new();
        let mut i: usize = 0;
        while i < n
            invariant
                i <= n,
                n <= self.buffer@.len(),
                out@.len() == i,
                forall|j: int| 0 <= j < i ==> out@[j] == self.buffer@[j],
            decreases n - i,
        {
            out.push(self.buffer[i]);
            i = i + 1;
        }
        assert(out@ =~= self.spec_units());
        out
    }

    /// Decode the string's code units; `None` where they are not valid
    /// UTF-16.
    pub fn try_to_string(&self) -> (r: Option<String>)
        requires
            self.wf(),
        ensures
            (r is Some) == (utf16_decoding(self.spec_units()) is Some),
            r is Some ==> r->0@ == utf16_decoding(self.spec_units())->0,
    {
        let units = self.as_slice();
        decode_utf16(&units)
    }
}

} // verus!
