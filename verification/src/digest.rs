//! The repay operation's wire discriminator.
//!
//! Each operation's argument data opens with eight bytes that identify the
//! operation: the leading bytes of the SHA-256 digest of a fixed tag. The
//! instruction scan recognises a repay by exactly this discriminator.

use vstd::prelude::*;
use vstd::slice::{slice_subrange, slice_to_vec};
use crate::encoding::{be64, le64, u64_from_be8, u64_to_le8};
use sha2_const::Sha256;

verus! {

/// The SHA-256 digest of `data`: 32 bytes, a function of the input alone.
pub uninterp spec fn sha256_of(data: Seq<u8>) -> Seq<u8>;

/// Relies on `sha2_const::Sha256` (`new`, `update`, `finalize`): the SHA-256
/// digest of the input bytes, 32 bytes long, depending on the input alone.
#[verifier::external_body]
fn sha256(data: &[u8]) -> (r: Vec<u8>)
    ensures
        r@ == sha256_of(data@),
        r@.len() == 32,
{
    Sha256::new().update(data).finalize().to_vec()
}

/// The tag whose digest identifies the repay operation on the wire.
pub open spec fn repay_tag() -> Seq<u8> {
    seq![
        103u8,
        108u8,
        111u8,
        98u8,
        97u8,
        108u8,
        58u8,
        114u8,
        101u8,
        112u8,
        97u8,
        121u8,
    ]
}

/// The eight bytes that open every repay operation's argument data.
pub open spec fn spec_repay_discriminator_bytes() -> Seq<u8> {
    sha256_of(repay_tag()).take(8)
}

/// The repay discriminator read as one big-endian 64-bit value.
pub open spec fn spec_repay_discriminator() -> int {
    be64(spec_repay_discriminator_bytes())
}

/// The eight bytes that open every repay operation's argument data.
pub fn repay_discriminator_bytes() -> (r: Vec<u8>)
    ensures
        r@ == spec_repay_discriminator_bytes(),
        r@.len() == 8,
{
    let tag: Vec<u8> = vec![
        103u8,
        108u8,
        111u8,
        98u8,
        97u8,
        108u8,
        58u8,
        114u8,
        101u8,
        112u8,
        97u8,
        121u8,
    ];
    proof {
        assert(tag@ =~= repay_tag());
    }
    let dg = sha256(tag.as_slice());
    let head = slice_subrange(dg.as_slice(), 0, 8);
    proof {
        assert(head@ =~= spec_repay_discriminator_bytes());
    }
    slice_to_vec(head)
}

/// The repay discriminator as one big-endian 64-bit value, as the scan
/// compares it.
pub fn repay_discriminator() -> (r: u64)
    ensures
        r == spec_repay_discriminator(),
{
    let bytes = repay_discriminator_bytes();
    u64_from_be8(bytes.as_slice())
}

/// Build the argument data of a repay operation: its discriminator, then the
/// repaid amount as eight little-endian bytes.
pub fn encode_repay_data(amount: u64) -> (r: Vec<u8>)
    ensures
        r@.len() == 16,
        r@.take(8) == spec_repay_discriminator_bytes(),
        be64(r@.take(8)) == spec_repay_discriminator(),
        le64(r@.subrange(8, 16)) == amount,
{
    let mut r = repay_discriminator_bytes();
    let mut tail = u64_to_le8(amount);
    let ghost head_view = r@;
    let ghost tail_view = tail@;
    r.append(&mut tail);
    proof {
        assert(r@.take(8) =~= head_view);
        assert(r@.subrange(8, 16) =~= tail_view);
    }
    r
}

} // verus!
