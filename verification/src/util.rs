use vstd::prelude::*;

verus! {

/// Why a parser stopped without producing a value.
#[derive(Debug, Clone, Copy, PartialEq, Eq, Structural)]
pub enum ParseError {
    /// The input ended inside a field; the field that could not be read
    /// needs this many bytes.
    Incomplete(usize),
    /// A repetition that needs at least one element found none.
    Many1,
}

/// The number of padding bytes that follow a field of `length` bytes so
/// that the next field starts on a 32-bit boundary.
pub open spec fn spec_pad_to_32bits(length: u32) -> usize {
    if length % 4 == 0 {
        0
    } else {
        (4 - length % 4) as usize
    }
}

/// The padding you'll need to read to catch the reader up to alignment.
/// Returns a usize, because you'll probably never pass it to anything other than take!
pub fn pad_to_32bits(length: u32) -> (pad: usize)
    ensures
        pad == spec_pad_to_32bits(length),
        pad < 4,
        (length + pad) % 4 == 0,
{
    let padding = length % 4;
    if padding == 0 {
        0
    } else {
        let delta = 4 - padding;
        delta as usize
    }
}

/// The number whose little-endian bytes are `b0 b1`.
pub open spec fn word16(b0: u8, b1: u8) -> int {
    b0 as int + 256 * b1 as int
}

/// The number whose little-endian bytes are `b0 b1 b2 b3`.
pub open spec fn word32(b0: u8, b1: u8, b2: u8, b3: u8) -> int {
    b0 as int + 256 * b1 as int + 65536 * b2 as int + 16777216 * b3 as int
}

/// The number whose little-endian bytes are `s[i..i + 8]`.
pub open spec fn word64_at(s: Seq<u8>, i: int) -> int {
    word32(s[i], s[i + 1], s[i + 2], s[i + 3]) + 4294967296 * word32(
        s[i + 4],
        s[i + 5],
        s[i + 6],
        s[i + 7],
    )
}

/// The little-endian `u16` stored at `s[i..i + 2]`.
pub open spec fn spec_le_u16(s: Seq<u8>, i: int) -> u16 {
    (s[i] as int + s[i + 1] as int * 0x100) as u16
}

/// The little-endian `u32` stored at `s[i..i + 4]`.
pub open spec fn spec_le_u32(s: Seq<u8>, i: int) -> u32 {
    (s[i] as int + s[i + 1] as int * 0x100 + s[i + 2] as int * 0x1_0000 + s[i + 3] as int
        * 0x100_0000) as u32
}

/// The little-endian `u64` stored at `s[i..i + 8]`.
pub open spec fn spec_le_u64(s: Seq<u8>, i: int) -> u64 {
    (spec_le_u32(s, i) as int + spec_le_u32(s, i + 4) as int * 0x1_0000_0000) as u64
}

/// Reads the little-endian `u16` at `input[at..at + 2]`.
pub fn le_u16_at(input: &[u8], at: usize) -> (v: u16)
    requires
        at + 2 <= input@.len(),
    ensures
        v == spec_le_u16(input@, at as int),
        v == word16(input@[at as int], input@[at + 1]),
{
    let b0 = input[at] as u16;
    let b1 = input[at + 1] as u16;
    b0 + b1 * 0x100
}

/// Reads the little-endian `u32` at `input[at..at + 4]`.
pub fn le_u32_at(input: &[u8], at: usize) -> (v: u32)
    requires
        at + 4 <= input@.len(),
    ensures
        v == spec_le_u32(input@, at as int),
        v == word32(input@[at as int], input@[at + 1], input@[at + 2], input@[at + 3]),
{
    let b0 = input[at] as u32;
    let b1 = input[at + 1] as u32;
    let b2 = input[at + 2] as u32;
    let b3 = input[at + 3] as u32;
    b0 + b1 * 0x100 + b2 * 0x1_0000 + b3 * 0x100_0000
}

/// Reads the little-endian `u64` at `input[at..at + 8]`.
pub fn le_u64_at(input: &[u8], at: usize) -> (v: u64)
    requires
        at + 8 <= input@.len(),
    ensures
        v == spec_le_u64(input@, at as int),
        v == word64_at(input@, at as int),
{
    let len = input.len();
    assert(at + 4 < len);
    let lo = le_u32_at(input, at) as u64;
    let hi = le_u32_at(input, at + 4) as u64;
    lo + hi * 0x1_0000_0000
}

/// The input that follows the first `n` bytes of `input`.
pub fn skip_bytes<'a>(input: &'a [u8], n: usize) -> (rest: &'a [u8])
    requires
        n <= input@.len(),
    ensures
        rest@ == input@.skip(n as int),
{
    let rest = vstd::slice::slice_subrange(input, n, input.len());
    assert(rest@ =~= input@.skip(n as int));
    rest
}

/// What a parser's result says, taken by views: on success the number of
/// bytes consumed and the value, else the error.
pub open spec fn result_matches<'a, T: View>(
    input: Seq<u8>,
    r: Result<(&'a [u8], T), ParseError>,
    s: Result<(int, T::V), ParseError>,
) -> bool {
    match s {
        Ok((n, v)) => {
            &&& 0 <= n <= input.len()
            &&& r matches Ok((left, t)) && left@ == input.skip(n) && t@ == v
        },
        Err(e) => r matches Err(re) && re == e,
    }
}

/// The readers take bytes in little-endian order: the value of a 16-, 32-
/// or 64-bit field is the sum of its bytes, the byte at offset `k` counted
/// `256^k` times.
pub proof fn law_little_endian(s: Seq<u8>, i: int)
    requires
        0 <= i,
    ensures
        i + 2 <= s.len() ==> spec_le_u16(s, i) == word16(s[i], s[i + 1]),
        i + 4 <= s.len() ==> spec_le_u32(s, i) == word32(s[i], s[i + 1], s[i + 2], s[i + 3]),
        i + 8 <= s.len() ==> spec_le_u64(s, i) == word64_at(s, i),
{
}

/// `s.skip(a).skip(b)` is `s.skip(a + b)`.
pub proof fn lemma_skip_skip(s: Seq<u8>, a: int, b: int)
    requires
        0 <= a,
        0 <= b,
        a + b <= s.len(),
    ensures
        s.skip(a).skip(b) =~= s.skip(a + b),
{
}

} // verus!
