//! The calls into lz4_flex, each behind a contract that states what the
//! library relies on.
use vstd::prelude::*;
use crate::error::CodecError;
use crate::frame::{frame_extent, FrameExtent};
use lz4_flex::block::DecompressError;

verus! {

/// The unsigned integer that the first four bytes of `s` encode, least
/// significant byte first.
pub open spec fn le_prefix(s: Seq<u8>) -> nat {
    s[0] as nat + 256 * (s[1] as nat) + 65536 * (s[2] as nat) + 16777216 * (s[3] as nat)
}

/// The view of a byte-producing result.
pub open spec fn bytes_result(r: Result<Vec<u8>, CodecError>) -> Result<Seq<u8>, CodecError> {
    match r {
        Ok(v) => Ok(v@),
        Err(e) => Err(e),
    }
}

/// The length of a run of 0xFF bytes at which lz4_flex's block decoder, adding
/// up a length field in a `u32`, can overflow: 255 times it is `u32::MAX`.
pub const FF_RUN_LIMIT: u64 = 16843009;

/// The number of consecutive 0xFF bytes that end just before offset `i`.
pub open spec fn ff_run_ending(s: Seq<u8>, i: int) -> nat
    decreases i,
{
    if i <= 0 || i > s.len() {
        0
    } else if s[i - 1] == 0xFF {
        ff_run_ending(s, i - 1) + 1
    } else {
        0
    }
}

/// Whether `s` holds a run of `FF_RUN_LIMIT` or more 0xFF bytes.
pub open spec fn has_long_ff_run(s: Seq<u8>) -> bool {
    exists|i: int| 0 <= i <= s.len() && #[trigger] ff_run_ending(s, i) >= FF_RUN_LIMIT
}

/// The size-prefixed LZ4 block that lz4_flex produces for `data`.
pub uninterp spec fn block_of(data: Seq<u8>) -> Seq<u8>;

/// The size-prefixed LZ4 block that lz4_flex produces for `data` with the
/// shared dictionary `dict`.
pub uninterp spec fn block_with_dict_of(data: Seq<u8>, dict: Seq<u8>) -> Seq<u8>;

/// What lz4_flex decodes from the size-prefixed block `c`.
pub uninterp spec fn unblock_of(c: Seq<u8>) -> Result<Seq<u8>, CodecError>;

/// What lz4_flex decodes from the size-prefixed block `c` with the shared
/// dictionary `dict`.
pub uninterp spec fn unblock_with_dict_of(c: Seq<u8>, dict: Seq<u8>) -> Result<Seq<u8>, CodecError>;

/// The LZ4 frame that lz4_flex's encoder writes for `data`, default settings.
pub uninterp spec fn frame_of(data: Seq<u8>) -> Seq<u8>;

/// What lz4_flex's frame decoder reads from the first frame in `c`.
pub uninterp spec fn unframe_of(c: Seq<u8>) -> Result<Seq<u8>, CodecError>;

/// Relies on lz4_flex::block::compress_prepend_size: the block is the input
/// length as a little-endian u32 followed by the compressed payload, within
/// the buffer that compress_into_vec_with_dict allocates
/// (get_maximum_output_size plus the four prefix bytes).
#[verifier::external_body]
pub(crate) fn lz4_compress(data: &[u8]) -> (r: Vec<u8>)
    requires
        data@.len() <= u32::MAX,
    ensures
        r@ == block_of(data@),
        r@.len() >= 4,
        r@.len() <= 24 + data@.len() * 110 / 100,
        le_prefix(r@) == data@.len(),
{
    lz4_flex::block::compress_prepend_size(data)
}

/// Relies on lz4_flex::block::compress_prepend_size_with_dict: as
/// compress_prepend_size, with the payload keyed by the dictionary.
#[verifier::external_body]
pub(crate) fn lz4_compress_with_dict(data: &[u8], dict: &[u8]) -> (r: Vec<u8>)
    requires
        data@.len() <= u32::MAX,
    ensures
        r@ == block_with_dict_of(data@, dict@),
        r@.len() >= 4,
        r@.len() <= 24 + data@.len() * 110 / 100,
        le_prefix(r@) == data@.len(),
{
    lz4_flex::block::compress_prepend_size_with_dict(data, dict)
}

/// Relies on lz4_flex::block::decompress_size_prepended: under four bytes
/// there is no size to read; the output never exceeds the declared size; and
/// it inverts compress_prepend_size, whose blocks declare the length of their
/// input. Input that ends early is `Truncated`, output that outgrows the
/// declared size `SizeMismatch`, anything else malformed `Corrupt`. A length
/// field is summed in a `u32` (decompress_safe.rs `read_integer`), which
/// overflows, and panics where overflow is checked, only after
/// `FF_RUN_LIMIT` bytes of 0xFF in a row: such input is left out.
#[verifier::external_body]
pub(crate) fn lz4_decompress(c: &[u8]) -> (r: Result<Vec<u8>, CodecError>)
    requires
        !has_long_ff_run(c@),
    ensures
        bytes_result(r) == unblock_of(c@),
        c@.len() < 4 ==> r is Err && r->Err_0 is Truncated,
        r is Ok ==> r->Ok_0@.len() <= le_prefix(c@),
        forall|b: Seq<u8>| b.len() <= u32::MAX && c@ == #[trigger] block_of(b) ==> r is Ok && r->Ok_0@ == b && r->Ok_0@.len() == le_prefix(c@),
{
    match lz4_flex::block::decompress_size_prepended(c) {
        Ok(v) => Ok(v),
        Err(DecompressError::ExpectedAnotherByte) => Err(CodecError::Truncated),
        Err(DecompressError::LiteralOutOfBounds) => Err(CodecError::Truncated),
        Err(DecompressError::OutputTooSmall { .. }) => Err(CodecError::SizeMismatch),
        Err(_) => Err(CodecError::Corrupt),
    }
}

/// Relies on lz4_flex::block::decompress_size_prepended_with_dict: under four
/// bytes there is no size to read; the output never exceeds the declared
/// size; and with the same dictionary it inverts
/// compress_prepend_size_with_dict. Errors and the excluded input are as
/// above.
#[verifier::external_body]
pub(crate) fn lz4_decompress_with_dict(c: &[u8], dict: &[u8]) -> (r: Result<Vec<u8>, CodecError>)
    requires
        !has_long_ff_run(c@),
    ensures
        bytes_result(r) == unblock_with_dict_of(c@, dict@),
        c@.len() < 4 ==> r is Err && r->Err_0 is Truncated,
        r is Ok ==> r->Ok_0@.len() <= le_prefix(c@),
        forall|b: Seq<u8>| b.len() <= u32::MAX && c@ == #[trigger] block_with_dict_of(b, dict@) ==> r is Ok && r->Ok_0@ == b && r->Ok_0@.len() == le_prefix(c@),
{
    match lz4_flex::block::decompress_size_prepended_with_dict(c, dict) {
        Ok(v) => Ok(v),
        Err(DecompressError::ExpectedAnotherByte) => Err(CodecError::Truncated),
        Err(DecompressError::LiteralOutOfBounds) => Err(CodecError::Truncated),
        Err(DecompressError::OutputTooSmall { .. }) => Err(CodecError::SizeMismatch),
        Err(_) => Err(CodecError::Corrupt),
    }
}

/// Relies on lz4_flex::frame::FrameEncoder (new, write_all, finish) over a
/// `Vec<u8>`, at default settings: it cannot fail there (no content size is
/// declared, writing to a `Vec` never errs, and each block's output buffer
/// is sized by get_maximum_output_size), and it writes one whole frame:
/// header (begin_frame), blocks (write_block), end marker (end_frame).
#[verifier::external_body]
pub(crate) fn lz4_frame_encode(data: &[u8]) -> (r: Result<Vec<u8>, String>)
    ensures
        r is Ok,
        r->Ok_0@ == frame_of(data@),
        frame_extent(r->Ok_0@) == FrameExtent::Ends(r->Ok_0@.len() as int),
{
    let mut encoder = lz4_flex::frame::FrameEncoder::new(Vec::new());
    match std::io::Write::write_all(&mut encoder, data) {
        Ok(()) => encoder.finish().map_err(|e| e.to_string()),
        Err(e) => Err(e.to_string()),
    }
}

/// Relies on lz4_flex::frame::FrameDecoder, read through
/// std::io::Read::read_to_end, which stops after the first frame: a frame
/// that its encoder wrote decodes to the original bytes. An I/O error of
/// kind `UnexpectedEof` (the input stopped inside a header or a block) is
/// `Truncated`, any other error `Corrupt`.
#[verifier::external_body]
pub(crate) fn lz4_frame_decode(c: &[u8]) -> (r: Result<Vec<u8>, CodecError>)
    ensures
        bytes_result(r) == unframe_of(c@),
        r is Err ==> r->Err_0 is Truncated || r->Err_0 is Corrupt,
        forall|b: Seq<u8>| c@ == #[trigger] frame_of(b) ==> r is Ok && r->Ok_0@ == b,
{
    let mut decoder = lz4_flex::frame::FrameDecoder::new(c);
    let mut out: Vec<u8> = Vec::new();
    match std::io::Read::read_to_end(&mut decoder, &mut out) {
        Ok(_) => Ok(out),
        Err(e) if e.kind() == std::io::ErrorKind::UnexpectedEof => Err(CodecError::Truncated),
        Err(_) => Err(CodecError::Corrupt),
    }
}

} // verus!
