//! The LZ4 frame container's layout: how far the bytes at hand reach into a
//! frame, read from its magic number, descriptor and block-size words up to
//! its end marker.
use vstd::prelude::*;

verus! {

/// How far a byte sequence reaches into an LZ4 frame.
pub enum FrameExtent {
    /// A whole frame is there; it ends at this offset.
    Ends(int),
    /// The bytes stop before the frame's end marker (and its checksum).
    Open,
    /// The bytes do not begin with the frame magic number.
    BadMagic,
}

/// The verdict of a scan, without the offset.
#[derive(Debug, Clone, Copy, PartialEq, Eq, Structural)]
pub enum FrameShape {
    Complete,
    Incomplete,
    BadMagic,
}

pub open spec fn shape_of(e: FrameExtent) -> FrameShape {
    match e {
        FrameExtent::Ends(_) => FrameShape::Complete,
        FrameExtent::Open => FrameShape::Incomplete,
        FrameExtent::BadMagic => FrameShape::BadMagic,
    }
}

/// The little-endian u32 at offset `pos` of `s`.
pub open spec fn u32_at(s: Seq<u8>, pos: int) -> nat {
    s[pos] as nat + 256 * (s[pos + 1] as nat) + 65536 * (s[pos + 2] as nat) + 16777216 * (s[pos + 3] as nat)
}

/// Whether the descriptor flag byte `flg` has the bit of value `bit` set.
pub open spec fn flag(flg: u8, bit: nat) -> bool {
    (flg as nat / bit) % 2 == 1
}

/// Whether the bytes present contradict the magic number 0x184D2204.
pub open spec fn magic_mismatch(s: Seq<u8>) -> bool {
    ||| s.len() > 0 && s[0] != 0x04
    ||| s.len() > 1 && s[1] != 0x22
    ||| s.len() > 2 && s[2] != 0x4D
    ||| s.len() > 3 && s[3] != 0x18
}

/// The length of the frame header whose flag byte is `flg`: magic, flags,
/// block descriptor and header checksum, with the optional content size
/// (flag 0x08) and dictionary id (flag 0x01).
pub open spec fn header_len(flg: u8) -> int {
    7 + (if flag(flg, 8) { 8int } else { 0int }) + (if flag(flg, 1) { 4int } else { 0int })
}

/// Walks the blocks from offset `pos`: each starts with a size word whose top
/// bit marks an uncompressed block, followed by its data and, with flag
/// 0x10, a block checksum. A zero word is the end marker, followed by a
/// content checksum under flag 0x04.
pub open spec fn blocks_extent(s: Seq<u8>, pos: int, flg: u8) -> FrameExtent
    decreases s.len() - pos,
{
    if pos < 0 || pos + 4 > s.len() {
        FrameExtent::Open
    } else {
        let w = u32_at(s, pos);
        if w == 0 {
            let end = pos + 4 + (if flag(flg, 4) { 4int } else { 0int });
            if end > s.len() {
                FrameExtent::Open
            } else {
                FrameExtent::Ends(end)
            }
        } else {
            let next = pos + 4 + (w % 0x8000_0000) + (if flag(flg, 16) { 4int } else { 0int });
            if next > s.len() {
                FrameExtent::Open
            } else {
                blocks_extent(s, next, flg)
            }
        }
    }
}

/// How far `s` reaches into the LZ4 frame it begins with.
pub open spec fn frame_extent(s: Seq<u8>) -> FrameExtent {
    if magic_mismatch(s) {
        FrameExtent::BadMagic
    } else if s.len() < 5 {
        FrameExtent::Open
    } else if s.len() < header_len(s[4]) {
        FrameExtent::Open
    } else {
        blocks_extent(s, header_len(s[4]), s[4])
    }
}

/// Scans `c` for a whole LZ4 frame.
pub fn scan_frame(c: &[u8]) -> (r: FrameShape)
    ensures
        r == shape_of(frame_extent(c@)),
{
    let n = c.len();
    if (n > 0 && c[0] != 0x04) || (n > 1 && c[1] != 0x22) || (n > 2 && c[2] != 0x4D) || (n > 3 && c[3] != 0x18) {
        return FrameShape::BadMagic;
    }
    if n < 5 {
        return FrameShape::Incomplete;
    }
    let flg = c[4];
    let content_size: usize = if (flg / 8) % 2 == 1 { 8 } else { 0 };
    let dict_id: usize = if flg % 2 == 1 { 4 } else { 0 };
    let block_sum: usize = if (flg / 16) % 2 == 1 { 4 } else { 0 };
    let content_sum: usize = if (flg / 4) % 2 == 1 { 4 } else { 0 };
    let header = 7 + content_size + dict_id;
    if n < header {
        return FrameShape::Incomplete;
    }
    let mut pos: usize = header;
    loop
        invariant
            header <= pos <= n,
            n == c@.len(),
            flg == c@[4],
            block_sum == (if flag(flg, 16) { 4int } else { 0int }),
            content_sum == (if flag(flg, 4) { 4int } else { 0int }),
            frame_extent(c@) == blocks_extent(c@, pos as int, flg),
        decreases n - pos,
    {
        if n - pos < 4 {
            return FrameShape::Incomplete;
        }
        let w: u32 = c[pos] as u32 + 256 * (c[pos + 1] as u32) + 65536 * (c[pos + 2] as u32) + 16777216 * (c[pos + 3] as u32);
        assert(w as nat == u32_at(c@, pos as int));
        if w == 0 {
            if n - pos - 4 < content_sum {
                return FrameShape::Incomplete;
            }
            return FrameShape::Complete;
        }
        let size: usize = (w % 0x8000_0000) as usize + block_sum;
        if n - pos - 4 < size {
            return FrameShape::Incomplete;
        }
        pos = pos + 4 + size;
    }
}

/// A strict prefix of a sequence that holds exactly one whole frame reaches
/// only partway into the block walk.
proof fn lemma_prefix_blocks_open(s: Seq<u8>, pos: int, flg: u8, k: int)
    requires
        0 <= k < s.len(),
        blocks_extent(s, pos, flg) == FrameExtent::Ends(s.len() as int),
    ensures
        blocks_extent(s.take(k), pos, flg) == FrameExtent::Open,
    decreases s.len() - pos,
{
    let p = s.take(k);
    if pos < 0 || pos + 4 > p.len() {
    } else {
        assert(u32_at(p, pos) == u32_at(s, pos));
        let w = u32_at(s, pos);
        if w != 0 {
            let next = pos + 4 + (w % 0x8000_0000) + (if flag(flg, 16) { 4int } else { 0int });
            if next <= p.len() {
                lemma_prefix_blocks_open(s, next, flg, k);
            }
        }
    }
}

/// Every strict prefix of a whole frame is incomplete: the end marker is
/// not reached before the last byte.
pub proof fn lemma_strict_prefix_is_open(s: Seq<u8>, k: int)
    requires
        0 <= k < s.len(),
        frame_extent(s) == FrameExtent::Ends(s.len() as int),
    ensures
        frame_extent(s.take(k)) == FrameExtent::Open,
{
    let p = s.take(k);
    assert(!magic_mismatch(p));
    if p.len() >= 5 && p.len() >= header_len(p[4]) {
        assert(p[4] == s[4]);
        lemma_prefix_blocks_open(s, header_len(s[4]), s[4], k);
    }
}

/// A whole frame starts with the magic number 0x184D2204, little-endian, and
/// holds at least a seven-byte header and a four-byte end marker.
pub proof fn lemma_whole_frame_shape(s: Seq<u8>, end: int)
    requires
        frame_extent(s) == FrameExtent::Ends(end),
    ensures
        11 <= end <= s.len(),
        s[0] == 0x04 && s[1] == 0x22 && s[2] == 0x4D && s[3] == 0x18,
{
    lemma_blocks_end_bounds(s, header_len(s[4]), s[4], end);
}

proof fn lemma_blocks_end_bounds(s: Seq<u8>, pos: int, flg: u8, end: int)
    requires
        blocks_extent(s, pos, flg) == FrameExtent::Ends(end),
    ensures
        pos + 4 <= end <= s.len(),
    decreases s.len() - pos,
{
    if pos >= 0 && pos + 4 <= s.len() && u32_at(s, pos) != 0 {
        let w = u32_at(s, pos);
        let next = pos + 4 + (w % 0x8000_0000) + (if flag(flg, 16) { 4int } else { 0int });
        if next <= s.len() {
            lemma_blocks_end_bounds(s, next, flg, end);
        }
    }
}

} // verus!
