//! Fixed-width integer fields of the operation wire format.
//!
//! An operation's argument data carries its discriminator as eight big-endian
//! bytes followed by its amount as eight little-endian bytes.

use vstd::prelude::*;
use vstd::slice::slice_subrange;

verus! {

/// The value of eight bytes read in big-endian order: `s[0]` is the most
/// significant byte.
pub open spec fn be64(s: Seq<u8>) -> int
    recommends
        s.len() == 8,
{
    s[0] * 0x100_0000_0000_0000 + s[1] * 0x1_0000_0000_0000 + s[2] * 0x100_0000_0000 + s[3]
        * 0x1_0000_0000 + s[4] * 0x100_0000 + s[5] * 0x1_0000 + s[6] * 0x100 + s[7]
}

/// The value of eight bytes read in little-endian order: `s[0]` is the least
/// significant byte.
pub open spec fn le64(s: Seq<u8>) -> int
    recommends
        s.len() == 8,
{
    s[0] + s[1] * 0x100 + s[2] * 0x1_0000 + s[3] * 0x100_0000 + s[4] * 0x1_0000_0000 + s[5]
        * 0x100_0000_0000 + s[6] * 0x1_0000_0000_0000 + s[7] * 0x100_0000_0000_0000
}

/// Read a 64-bit big-endian integer from an eight-byte slice.
pub fn u64_from_be8(b: &[u8]) -> (r: u64)
    requires
        b@.len() == 8,
    ensures
        r == be64(b@),
{
    let r: u64 = (((((((b[0] as u64) * 0x100 + b[1] as u64) * 0x100 + b[2] as u64) * 0x100
        + b[3] as u64) * 0x100 + b[4] as u64) * 0x100 + b[5] as u64) * 0x100 + b[6] as u64) * 0x100
        + b[7] as u64;
    r
}

/// Read a 64-bit little-endian integer from an eight-byte slice.
pub fn u64_from_le8(b: &[u8]) -> (r: u64)
    requires
        b@.len() == 8,
    ensures
        r == le64(b@),
{
    let r: u64 = (((((((b[7] as u64) * 0x100 + b[6] as u64) * 0x100 + b[5] as u64) * 0x100
        + b[4] as u64) * 0x100 + b[3] as u64) * 0x100 + b[2] as u64) * 0x100 + b[1] as u64) * 0x100
        + b[0] as u64;
    r
}

/// Write a 64-bit integer as eight little-endian bytes.
pub fn u64_to_le8(x: u64) -> (r: Vec<u8>)
    ensures
        r@.len() == 8,
        le64(r@) == x,
{
    let x1: u64 = x / 0x100;
    let x2: u64 = x1 / 0x100;
    let x3: u64 = x2 / 0x100;
    let x4: u64 = x3 / 0x100;
    let x5: u64 = x4 / 0x100;
    let x6: u64 = x5 / 0x100;
    let x7: u64 = x6 / 0x100;
    let r: Vec<u8> = vec![
        (x % 0x100) as u8,
        (x1 % 0x100) as u8,
        (x2 % 0x100) as u8,
        (x3 % 0x100) as u8,
        (x4 % 0x100) as u8,
        (x5 % 0x100) as u8,
        (x6 % 0x100) as u8,
        (x7 % 0x100) as u8,
    ];
    proof {
        assert(x7 < 0x100) by {
            vstd::arithmetic::div_mod::lemma_div_is_ordered(x as int, u64::MAX as int, 0x100);
            vstd::arithmetic::div_mod::lemma_div_is_ordered(x1 as int, 0xFF_FFFF_FFFF_FFFF, 0x100);
            vstd::arithmetic::div_mod::lemma_div_is_ordered(x2 as int, 0xFFFF_FFFF_FFFF, 0x100);
            vstd::arithmetic::div_mod::lemma_div_is_ordered(x3 as int, 0xFF_FFFF_FFFF, 0x100);
            vstd::arithmetic::div_mod::lemma_div_is_ordered(x4 as int, 0xFFFF_FFFF, 0x100);
            vstd::arithmetic::div_mod::lemma_div_is_ordered(x5 as int, 0xFF_FFFF, 0x100);
            vstd::arithmetic::div_mod::lemma_div_is_ordered(x6 as int, 0xFFFF, 0x100);
        }
    }
    r
}

/// Take an eight-byte slice out of a longer one; a convenience over the
/// standard subrange with the length made explicit.
pub fn take8(b: &[u8], start: usize) -> (r: &[u8])
    requires
        start + 8 <= b@.len(),
    ensures
        r@ == b@.subrange(start as int, start as int + 8),
        r@.len() == 8,
{
    let n: usize = b.len();
    slice_subrange(b, start, start + 8)
}

} // verus!
