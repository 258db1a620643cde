//! The block walk of the block-oriented codec.
//!
//! A packed stream is a [`PackageDataStreamHeader`] followed by
//! compressed blocks. Each block unpacks into the next `block_size` bytes
//! of the output, except the last, which unpacks into whatever remains.
//! The walk itself is computed and proved here; running the codec over the
//! spans needs the dynamically loaded library, which the surrounding
//! application drives.

use vstd::prelude::*;

verus! {

use crate::error::AkizukiError;
use crate::error::AkizukiResult;
use crate::error::OodleError;
use crate::format::pfs::PackageDataStreamHeader;
use vstd::math::min;

/// The header of a prepared BC7 texture block, as the texture codec
/// expects it.
#[derive(Clone, Copy, Debug)]
pub struct BC7PrepHeader {
    /// The format version of the prepared data.
    pub version: u32,
    /// Encoding flags.
    pub flags: u32,
    /// How many blocks of each of the ten modes the data holds.
    pub mode_counts: [u32; 10],
}

/// How many output bytes are still to be written after the first `n`
/// blocks of a stream that unpacks to `size` bytes in chunks of `bs`.
pub open spec fn spec_remaining_after(size: int, bs: int, n: int) -> int
    decreases n,
{
    if n <= 0 {
        size
    } else {
        let r = spec_remaining_after(size, bs, n - 1);
        r - min(r, bs)
    }
}

/// The compressed bytes taken by the first `n` blocks.
pub open spec fn spec_sum_blocks(blocks: Seq<u32>, n: int) -> int
    decreases n,
{
    if n <= 0 {
        0
    } else {
        spec_sum_blocks(blocks, n - 1) + blocks[n - 1]
    }
}

/// What remains after `n` blocks, in closed form: the output size less
/// `n` full chunks, and never below zero.
pub proof fn lemma_remaining_closed_form(size: int, bs: int, n: int)
    requires
        0 <= size,
        0 <= bs,
        0 <= n,
    ensures
        spec_remaining_after(size, bs, n) == if size - n * bs >= 0 {
            size - n * bs
        } else {
            0
        },
    decreases n,
{
    if n == 0 {
        assert(n * bs == 0) by (nonlinear_arith)
            requires
                n == 0,
        ;
    } else {
        lemma_remaining_closed_form(size, bs, n - 1);
        let r = spec_remaining_after(size, bs, n - 1);
        assert(spec_remaining_after(size, bs, n) == r - min(r, bs));
        assert(n * bs == (n - 1) * bs + bs) by (nonlinear_arith);
        if r >= bs {
            assert(spec_remaining_after(size, bs, n) == r - bs);
        } else {
            assert(spec_remaining_after(size, bs, n) == 0);
            assert(size - n * bs < 0);
        }
    }
}

/// The block walk is total: when the declared geometry covers the output
/// (enough blocks of the declared chunk size), the per-block output
/// lengths sum to exactly the unpacked size, since that sum is the size
/// less what remains.
pub proof fn lemma_oodle_blocks_total(size: int, bs: int, n: int)
    requires
        0 <= size,
        0 <= bs,
        0 <= n,
        size <= n * bs,
    ensures
        spec_remaining_after(size, bs, n) == 0,
{
    lemma_remaining_closed_form(size, bs, n);
}

/// Growing the prefix never shrinks the compressed total.
proof fn lemma_sum_blocks_mono(blocks: Seq<u32>, i: int, n: int)
    requires
        0 <= i <= n <= blocks.len(),
    ensures
        spec_sum_blocks(blocks, i) <= spec_sum_blocks(blocks, n),
    decreases n - i,
{
    if i < n {
        lemma_sum_blocks_mono(blocks, i, n - 1);
    }
}

/// One block of the walk: where its compressed bytes lie in the blob and
/// where its output belongs.
#[derive(Clone, Copy, PartialEq, Eq, Structural, Debug)]
pub struct OodleBlockSpan {
    /// Absolute offset of the block's compressed bytes.
    pub src_start: u64,
    /// How many compressed bytes the block holds.
    pub src_len: u64,
    /// Offset of the block's output inside the unpacked stream.
    pub dst_start: u64,
    /// How many bytes the block unpacks to.
    pub dst_len: u64,
}

/// The full block walk of a stream: one span per block, contiguous in the
/// source, chunk-sized in the output except for the final remainder.
pub fn oodle_block_spans(header: &PackageDataStreamHeader) -> (r: AkizukiResult<
    Vec<OodleBlockSpan>,
>)
    ensures
        match r {
            Ok(spans) => {
                let base = header.data_offset + header.relative_position;
                let nb = header.blocks@.len() as int;
                &&& header.reserved == 0
                &&& base + spec_sum_blocks(header.blocks@, nb) <= u64::MAX
                &&& spans@.len() == nb
                &&& forall|i: int|
                    0 <= i < nb ==> (#[trigger] spans@[i]).src_len == header.blocks@[i]
                &&& forall|i: int|
                    0 <= i < nb ==> (#[trigger] spans@[i]).src_start == base + spec_sum_blocks(
                        header.blocks@,
                        i,
                    )
                &&& forall|i: int|
                    0 <= i < nb ==> (#[trigger] spans@[i]).dst_len == min(
                        spec_remaining_after(header.size as int, header.block_size as int, i),
                        header.block_size as int,
                    )
                &&& forall|i: int|
                    0 <= i < nb ==> (#[trigger] spans@[i]).dst_start == header.size
                        - spec_remaining_after(header.size as int, header.block_size as int, i)
            },
            Err(e) => {
                ||| (e == AkizukiError::Oodle(OodleError::InvalidData) && header.reserved != 0)
                ||| (e == AkizukiError::Io && header.reserved == 0 && header.data_offset
                    + header.relative_position + spec_sum_blocks(
                    header.blocks@,
                    header.blocks@.len() as int,
                ) > u64::MAX)
            },
        },
{
    if header.reserved != 0 {
        return Err(AkizukiError::Oodle(OodleError::InvalidData));
    }

    let ghost bs = header.blocks@;
    let ghost nb = header.blocks@.len() as int;

    let base = match header.data_offset.checked_add(header.relative_position) {
        Some(v) => v,
        None => {
            proof {
                lemma_sum_blocks_nonneg(bs, nb);
            }
            return Err(AkizukiError::Io);
        },
    };

    let n = header.blocks.len();
    let mut spans: Vec<OodleBlockSpan> = Vec::new();
    let mut offset: u64 = base;
    let mut remaining: u64 = header.size;
    let mut i: usize = 0;

    while i < n
        invariant
            header.reserved == 0,
            i <= n,
            n == bs.len(),
            bs == header.blocks@,
            nb == bs.len() as int,
            base == header.data_offset + header.relative_position,
            offset == base + spec_sum_blocks(bs, i as int),
            remaining == spec_remaining_after(header.size as int, header.block_size as int, i as int),
            remaining <= header.size,
            spans@.len() == i,
            forall|k: int| 0 <= k < i ==> (#[trigger] spans@[k]).src_len == bs[k],
            forall|k: int|
                0 <= k < i ==> (#[trigger] spans@[k]).src_start == base + spec_sum_blocks(bs, k),
            forall|k: int|
                0 <= k < i ==> (#[trigger] spans@[k]).dst_len == min(
                    spec_remaining_after(header.size as int, header.block_size as int, k),
                    header.block_size as int,
                ),
            forall|k: int|
                0 <= k < i ==> (#[trigger] spans@[k]).dst_start == header.size
                    - spec_remaining_after(header.size as int, header.block_size as int, k),
        decreases n - i,
    {
        let b = header.blocks[i] as u64;
        let chunk = header.block_size as u64;
        let dst_len = if remaining < chunk {
            remaining
        } else {
            chunk
        };
        let dst_start = header.size - remaining;
        let next = match offset.checked_add(b) {
            Some(v) => v,
            None => {
                proof {
                    assert(spec_sum_blocks(bs, i as int + 1) == spec_sum_blocks(bs, i as int)
                        + bs[i as int]);
                    lemma_sum_blocks_mono(bs, i as int + 1, nb);
                }
                return Err(AkizukiError::Io);
            },
        };
        spans.push(OodleBlockSpan { src_start: offset, src_len: b, dst_start, dst_len });
        offset = next;
        remaining = remaining - dst_len;
        i = i + 1;
    }
    Ok(spans)
}

/// A compressed total is never negative.
proof fn lemma_sum_blocks_nonneg(blocks: Seq<u32>, n: int)
    ensures
        spec_sum_blocks(blocks, n) >= 0,
    decreases n,
{
    if n > 0 {
        lemma_sum_blocks_nonneg(blocks, n - 1);
    }
}

} // verus!
