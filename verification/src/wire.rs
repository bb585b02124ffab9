//! Little-endian integers on the wire.

use vstd::prelude::*;

verus! {

/// The 16-bit number that two bytes spell, least significant byte first.
pub open spec fn spec_le16(s: Seq<u8>, at: int) -> int {
    s[at] as int + 256 * (s[at + 1] as int)
}

/// The 32-bit number that four bytes spell, least significant byte first.
pub open spec fn spec_le32(s: Seq<u8>, at: int) -> int {
    s[at] as int + 256 * (s[at + 1] as int) + 65536 * (s[at + 2] as int) + 16777216 * (s[at
        + 3] as int)
}

/// The two bytes of a 16-bit number, least significant byte first.
pub open spec fn spec_le16_bytes(x: u16) -> Seq<u8> {
    seq![(x % 256) as u8, (x / 256) as u8]
}

/// The four bytes of a 32-bit number, least significant byte first.
pub open spec fn spec_le32_bytes(x: u32) -> Seq<u8> {
    seq![
        (x % 256) as u8,
        (x / 256 % 256) as u8,
        (x / 65536 % 256) as u8,
        (x / 16777216) as u8,
    ]
}

/// Reads a 16-bit number at `at`.
pub fn read_le16(s: &[u8], at: usize) -> (x: u16)
    requires
        at + 2 <= s@.len(),
    ensures
        x == spec_le16(s@, at as int),
{
    let b0: u16 = s[at] as u16;
    let b1: u16 = s[at + 1] as u16;
    b0 + 256 * b1
}

/// Reads a 32-bit number at `at`.
pub fn read_le32(s: &[u8], at: usize) -> (x: u32)
    requires
        at + 4 <= s@.len(),
    ensures
        x == spec_le32(s@, at as int),
{
    let b0: u32 = s[at] as u32;
    let b1: u32 = s[at + 1] as u32;
    let b2: u32 = s[at + 2] as u32;
    let b3: u32 = s[at + 3] as u32;
    b0 + 256 * b1 + 65536 * b2 + 16777216 * b3
}

/// Appends the two bytes of `x` to `out`.
pub fn push_le16(out: &mut Vec<u8>, x: u16)
    ensures
        final(out)@ == old(out)@ + spec_le16_bytes(x),
{
    out.push((x % 256) as u8);
    out.push((x / 256) as u8);
    assert(out@ =~= old(out)@ + spec_le16_bytes(x));
}

/// Appends the four bytes of `x` to `out`.
pub fn push_le32(out: &mut Vec<u8>, x: u32)
    ensures
        final(out)@ == old(out)@ + spec_le32_bytes(x),
{
    out.push((x % 256) as u8);
    out.push((x / 256 % 256) as u8);
    out.push((x / 65536 % 256) as u8);
    out.push((x / 16777216) as u8);
    assert(out@ =~= old(out)@ + spec_le32_bytes(x));
}

/// Reading back what was written gives the number again, wherever the bytes
/// stand in a longer sequence.
pub proof fn lemma_le16_round_trip(before: Seq<u8>, x: u16, after: Seq<u8>)
    ensures
        spec_le16(before + spec_le16_bytes(x) + after, before.len() as int) == x,
{
    let s = before + spec_le16_bytes(x) + after;
    let at = before.len() as int;
    assert(s[at] == spec_le16_bytes(x)[0]);
    assert(s[at + 1] == spec_le16_bytes(x)[1]);
}

/// Reading back what was written gives the number again, wherever the bytes
/// stand in a longer sequence.
pub proof fn lemma_le32_round_trip(before: Seq<u8>, x: u32, after: Seq<u8>)
    ensures
        spec_le32(before + spec_le32_bytes(x) + after, before.len() as int) == x,
{
    let s = before + spec_le32_bytes(x) + after;
    let at = before.len() as int;
    assert(s[at] == spec_le32_bytes(x)[0]);
    assert(s[at + 1] == spec_le32_bytes(x)[1]);
    assert(s[at + 2] == spec_le32_bytes(x)[2]);
    assert(s[at + 3] == spec_le32_bytes(x)[3]);
}

/// Whether two byte strings are the same.
pub fn bytes_equal(a: &[u8], b: &[u8]) -> (same: bool)
    ensures
        same == (a@ == b@),
{
    if a.len() != b.len() {
        return false;
    }
    let n = a.len();
    let mut i: usize = 0;
    while i < n
        invariant
            n == a@.len(),
            n == b@.len(),
            i <= n,
            forall|k: int| 0 <= k < i ==> a@[k] == b@[k],
        decreases n - i,
    {
        if a[i] != b[i] {
            return false;
        }
        i = i + 1;
    }
    assert(a@ =~= b@);
    true
}

} // verus!
