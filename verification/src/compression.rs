//! The block compressor that the compressed formats use.

use vstd::prelude::*;

verus! {

/// The error type of the block compressor.
#[verifier::external_type_specification]
#[verifier::external_body]
pub struct ExSnapError(snap::Error);

/// The block that the compressor makes of `input`.
pub uninterp spec fn snap_compressed(input: Seq<u8>) -> Seq<u8>;

/// The bytes that the decompressor makes of the block `input`; `None` where
/// it rejects the block.
pub uninterp spec fn snap_decompressed(input: Seq<u8>) -> Option<Seq<u8>>;

/// Whether the compressor takes an input of `len` bytes: the largest block
/// that such an input can give, `32 + len + len / 6` bytes, must fit 32 bits.
pub open spec fn compressible(len: nat) -> bool {
    32 + len + len / 6 <= u32::MAX
}

/// Compresses `input` into one raw Snappy block.
///
/// This is `snap::raw::Encoder::compress_vec` on a new encoder. Believed of
/// it, not proved: it fails exactly on an input that is too long to be
/// `compressible`, which is the one test it makes before it compresses; the
/// block it returns depends on the input alone; and the block is one that
/// `snap::raw::Decoder::decompress_vec` turns back into the input, the two
/// being the compressor and the decompressor of one lossless format.
#[verifier::external_body]
pub(crate) fn compress(input: &[u8]) -> (r: Result<Vec<u8>, snap::Error>)
    ensures
        r is Ok <==> compressible(input@.len()),
        r is Ok ==> r.unwrap()@ == snap_compressed(input@) && snap_decompressed(r.unwrap()@)
            == Some(input@),
{
    snap::raw::Encoder::new().compress_vec(input)
}

/// Decompresses one raw Snappy block.
///
/// This is `snap::raw::Decoder::decompress_vec` on a new decoder. Believed
/// of it, not proved: whether it accepts the block, and the bytes it then
/// returns, depend on the block alone.
#[verifier::external_body]
pub(crate) fn decompress(input: &[u8]) -> (r: Result<Vec<u8>, snap::Error>)
    ensures
        match r {
            Ok(body) => snap_decompressed(input@) == Some(body@),
            Err(_) => snap_decompressed(input@) is None,
        },
{
    snap::raw::Decoder::new().decompress_vec(input)
}

} // verus!
