//! The codec engine: LZ4 blocks under this library's size-prefix framing,
//! and LZ4 frames; first over byte slices, then over caller inputs.
use vstd::prelude::*;
use crate::error::CodecError;
use crate::frame::{frame_extent, scan_frame, FrameExtent, FrameShape};
use crate::input::{CodecInput, dict_bytes};
use crate::lz4::{
    block_of, block_with_dict_of, bytes_result, ff_run_ending, frame_of, has_long_ff_run,
    le_prefix, lz4_compress, lz4_compress_with_dict, lz4_decompress, lz4_decompress_with_dict,
    lz4_frame_decode, lz4_frame_encode, unblock_of, unblock_with_dict_of, unframe_of,
    FF_RUN_LIMIT,
};

verus! {

/// The view of an optional byte slice.
pub open spec fn slice_opt(d: Option<&[u8]>) -> Option<Seq<u8>> {
    match d {
        Some(s) => Some(s@),
        None => None,
    }
}

/// The block that compressing `data`, with or without a dictionary, yields.
pub open spec fn compressed_block(data: Seq<u8>, dict: Option<Seq<u8>>) -> Seq<u8> {
    match dict {
        Some(d) => block_with_dict_of(data, d),
        None => block_of(data),
    }
}

/// What the LZ4 block decoder makes of `c`, before the size check.
pub open spec fn raw_block_decode(c: Seq<u8>, dict: Option<Seq<u8>>) -> Result<Seq<u8>, CodecError> {
    match dict {
        Some(d) => unblock_with_dict_of(c, d),
        None => unblock_of(c),
    }
}

/// A decoded block is accepted only when its length is the one that the
/// block declares.
pub open spec fn checked_block(c: Seq<u8>, decoded: Result<Seq<u8>, CodecError>) -> Result<Seq<u8>, CodecError> {
    match decoded {
        Ok(out) => if out.len() == le_prefix(c) {
            Ok(out)
        } else {
            Err(CodecError::SizeMismatch)
        },
        Err(e) => Err(e),
    }
}

/// The outcome of decompressing the size-prefixed block `c`. A run of
/// `FF_RUN_LIMIT` 0xFF bytes, which no length field of a block within the
/// size prefix's range needs, is `Corrupt`.
pub open spec fn decompressed_block(c: Seq<u8>, dict: Option<Seq<u8>>) -> Result<Seq<u8>, CodecError> {
    if c.len() < 4 {
        Err(CodecError::Truncated)
    } else if has_long_ff_run(c) {
        Err(CodecError::Corrupt)
    } else {
        checked_block(c, raw_block_decode(c, dict))
    }
}

/// The outcome of decompressing the first LZ4 frame of `c`: bytes that stop
/// before its end marker are `Truncated`, bytes that do not start with the
/// magic number `Corrupt`, and a whole frame goes to the frame decoder.
pub open spec fn decompressed_frame(c: Seq<u8>) -> Result<Seq<u8>, CodecError> {
    match frame_extent(c) {
        FrameExtent::Open => Err(CodecError::Truncated),
        FrameExtent::BadMagic => Err(CodecError::Corrupt),
        FrameExtent::Ends(_) => unframe_of(c),
    }
}

/// What block compression of `data` returns: the block, which declares the
/// length of `data` in its first four bytes.
pub open spec fn block_compress_result(data: Seq<u8>, dict: Option<Seq<u8>>, r: Seq<u8>) -> bool {
    &&& r == compressed_block(data, dict)
    &&& r.len() >= 4
    &&& r.len() <= 24 + data.len() * 110 / 100
    &&& le_prefix(r) == data.len()
}

/// What block decompression of `c` returns: its outcome, whose success has
/// the declared length, and which gives back any input that was compressed
/// with the same dictionary.
pub open spec fn block_decompress_result(c: Seq<u8>, dict: Option<Seq<u8>>, r: Result<Seq<u8>, CodecError>) -> bool {
    &&& r == decompressed_block(c, dict)
    &&& r is Ok ==> c.len() >= 4 && r->Ok_0.len() == le_prefix(c)
    &&& forall|b: Seq<u8>| b.len() <= u32::MAX && c == #[trigger] compressed_block(b, dict) && !has_long_ff_run(c) ==> r == Ok::<Seq<u8>, CodecError>(b)
}

/// What frame compression of `data` returns: always one whole frame.
pub open spec fn frame_compress_result(data: Seq<u8>, r: Result<Seq<u8>, CodecError>) -> bool {
    &&& r == Ok::<Seq<u8>, CodecError>(frame_of(data))
    &&& frame_extent(frame_of(data)) == FrameExtent::Ends(frame_of(data).len() as int)
}

/// What frame decompression of `c` returns: its outcome, failing only as
/// `Truncated` or `Corrupt`, and giving back the input of any whole frame
/// that the encoder wrote.
pub open spec fn frame_decompress_result(c: Seq<u8>, r: Result<Seq<u8>, CodecError>) -> bool {
    &&& r == decompressed_frame(c)
    &&& r is Err ==> r->Err_0 is Truncated || r->Err_0 is Corrupt
    &&& forall|b: Seq<u8>| c == #[trigger] frame_of(b) && frame_extent(c) is Ends ==> r == Ok::<Seq<u8>, CodecError>(b)
}

/// An input shorter than `FF_RUN_LIMIT` holds no run that long.
pub proof fn lemma_short_input_has_no_long_run(s: Seq<u8>)
    requires
        s.len() < FF_RUN_LIMIT,
    ensures
        !has_long_ff_run(s),
{
    assert forall|i: int| 0 <= i <= s.len() implies #[trigger] ff_run_ending(s, i) <= i by {
        lemma_run_bounded(s, i);
    }
}

proof fn lemma_run_bounded(s: Seq<u8>, i: int)
    requires
        0 <= i,
    ensures
        ff_run_ending(s, i) <= i,
    decreases i,
{
    if i > 0 {
        lemma_run_bounded(s, i - 1);
    }
}

/// Whether `c` holds a run of `FF_RUN_LIMIT` or more 0xFF bytes.
pub fn long_ff_run(c: &[u8]) -> (r: bool)
    ensures
        r == has_long_ff_run(c@),
{
    let mut run: u64 = 0;
    let mut i: usize = 0;
    while i < c.len()
        invariant
            0 <= i <= c@.len(),
            run == ff_run_ending(c@, i as int),
            forall|k: int| 0 <= k <= i ==> #[trigger] ff_run_ending(c@, k) < FF_RUN_LIMIT,
        decreases c@.len() - i,
    {
        if c[i] == 0xFF {
            run = run + 1;
        } else {
            run = 0;
        }
        i = i + 1;
        assert(run == ff_run_ending(c@, i as int));
        if run >= FF_RUN_LIMIT {
            return true;
        }
    }
    false
}

/// The length that the block `c` declares in its first four bytes.
pub fn declared_size(c: &[u8]) -> (r: u64)
    requires
        c@.len() >= 4,
    ensures
        r == le_prefix(c@),
{
    c[0] as u64 + 256 * (c[1] as u64) + 65536 * (c[2] as u64) + 16777216 * (c[3] as u64)
}

/// Holds what the block decoder returned for `c` against the size that `c`
/// declares.
pub fn check_block_size(c: &[u8], decoded: Result<Vec<u8>, CodecError>) -> (r: Result<Vec<u8>, CodecError>)
    requires
        decoded is Ok ==> c@.len() >= 4,
    ensures
        bytes_result(r) == checked_block(c@, bytes_result(decoded)),
{
    match decoded {
        Ok(out) => {
            if out.len() as u64 == declared_size(c) {
                Ok(out)
            } else {
                Err(CodecError::SizeMismatch)
            }
        },
        Err(e) => Err(e),
    }
}

/// Compresses `data` into one block: its length as a little-endian u32,
/// then the LZ4 payload, keyed by `dict` when one is given.
pub fn block_compress(data: &[u8], dict: Option<&[u8]>) -> (r: Vec<u8>)
    requires
        data@.len() <= u32::MAX,
    ensures
        block_compress_result(data@, slice_opt(dict), r@),
{
    match dict {
        Some(d) => lz4_compress_with_dict(data, d),
        None => lz4_compress(data),
    }
}

/// Decompresses a block made by `block_compress` with the same dictionary.
/// Under four bytes the input is `Truncated`; a result whose length is not
/// the declared one is `SizeMismatch`.
pub fn block_decompress(c: &[u8], dict: Option<&[u8]>) -> (r: Result<Vec<u8>, CodecError>)
    ensures
        block_decompress_result(c@, slice_opt(dict), bytes_result(r)),
{
    proof {
        if c@.len() < 4 {
            lemma_short_input_has_no_long_run(c@);
        }
    }
    if long_ff_run(c) {
        return Err(CodecError::Corrupt);
    }
    let decoded = match dict {
        Some(d) => lz4_decompress_with_dict(c, d),
        None => lz4_decompress(c),
    };
    check_block_size(c, decoded)
}

/// Wraps `data` in one LZ4 frame.
pub fn frame_compress(data: &[u8]) -> (r: Result<Vec<u8>, CodecError>)
    ensures
        frame_compress_result(data@, bytes_result(r)),
{
    match lz4_frame_encode(data) {
        Ok(v) => Ok(v),
        Err(m) => Err(CodecError::InternalFailure(m)),
    }
}

/// Decompresses the first LZ4 frame of `c`, once its end marker is there.
pub fn frame_decompress(c: &[u8]) -> (r: Result<Vec<u8>, CodecError>)
    ensures
        frame_decompress_result(c@, bytes_result(r)),
{
    match scan_frame(c) {
        FrameShape::Incomplete => Err(CodecError::Truncated),
        FrameShape::BadMagic => Err(CodecError::Corrupt),
        FrameShape::Complete => lz4_frame_decode(c),
    }
}

/// The bytes of an optional dictionary input, viewed without copying.
fn dict_slice(dict: &Option<CodecInput>) -> (r: Option<&[u8]>)
    ensures
        slice_opt(r) == dict_bytes(*dict),
{
    match dict {
        Some(d) => Some(d.as_bytes()),
        None => None,
    }
}

/// Compresses `data` into a size-prefixed block, inline on the caller's
/// thread.
pub fn compress_sync(data: CodecInput, dict: Option<CodecInput>) -> (r: Vec<u8>)
    requires
        data.bytes().len() <= u32::MAX,
    ensures
        block_compress_result(data.bytes(), dict_bytes(dict), r@),
{
    block_compress(data.as_bytes(), dict_slice(&dict))
}

/// Decompresses a size-prefixed block, inline on the caller's thread.
pub fn uncompress_sync(data: CodecInput, dict: Option<CodecInput>) -> (r: Result<Vec<u8>, CodecError>)
    ensures
        block_decompress_result(data.bytes(), dict_bytes(dict), bytes_result(r)),
{
    block_decompress(data.as_bytes(), dict_slice(&dict))
}

/// Wraps `data` in an LZ4 frame, inline on the caller's thread.
pub fn compress_frame_sync(data: CodecInput) -> (r: Result<Vec<u8>, CodecError>)
    ensures
        frame_compress_result(data.bytes(), bytes_result(r)),
{
    frame_compress(data.as_bytes())
}

/// Decompresses the first LZ4 frame of `data`, inline on the caller's
/// thread.
pub fn decompress_frame_sync(data: CodecInput) -> (r: Result<Vec<u8>, CodecError>)
    ensures
        frame_decompress_result(data.bytes(), bytes_result(r)),
{
    frame_decompress(data.as_bytes())
}

/// A block whose size prefix was altered never decompresses to the original
/// bytes: whatever succeeds has the length that the altered prefix declares.
pub proof fn lemma_altered_prefix_never_passes(b: Seq<u8>, dict: Option<Seq<u8>>, altered: Seq<u8>)
    requires
        b.len() <= u32::MAX,
        block_compress_result(b, dict, compressed_block(b, dict)),
        altered.len() == compressed_block(b, dict).len(),
        altered.subrange(4, altered.len() as int) == compressed_block(b, dict).subrange(4, altered.len() as int),
        le_prefix(altered) != le_prefix(compressed_block(b, dict)),
    ensures
        decompressed_block(altered, dict) is Ok ==> decompressed_block(altered, dict)->Ok_0.len() == le_prefix(altered),
        decompressed_block(altered, dict) != Ok::<Seq<u8>, CodecError>(b),
{
}

/// Compressing and then decompressing gives back the input, for blocks and
/// for frames, with or without a dictionary: whatever `block_compress` and
/// `block_decompress` (or `frame_compress` and `frame_decompress`) may
/// return, chained they return the input. For blocks this is proved for
/// inputs up to 15,000,000 bytes, whose blocks are too short to hold the
/// 0xFF run that `block_decompress` turns away, and beyond that for every
/// block without such a run.
pub proof fn lemma_round_trip(b: Seq<u8>, dict: Option<Seq<u8>>, block: Seq<u8>, unblocked: Result<Seq<u8>, CodecError>, frame: Result<Seq<u8>, CodecError>, unframed: Result<Seq<u8>, CodecError>)
    requires
        b.len() <= u32::MAX,
        block_compress_result(b, dict, block),
        block_decompress_result(block, dict, unblocked),
        b.len() <= 15_000_000 || !has_long_ff_run(block),
        frame_compress_result(b, frame),
        frame is Ok,
        frame_decompress_result(frame->Ok_0, unframed),
    ensures
        unblocked == Ok::<Seq<u8>, CodecError>(b),
        unframed == Ok::<Seq<u8>, CodecError>(b),
{
    if b.len() <= 15_000_000 {
        lemma_short_input_has_no_long_run(block);
    }
}

} // verus!
