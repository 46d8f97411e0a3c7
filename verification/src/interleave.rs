//! Merging two RGBA pixel streams by alternating their pixels.
//!
//! The streams are flat byte sequences, four bytes (red, green, blue, alpha)
//! per pixel. The merge knows nothing of rows: the pixel that starts at byte
//! offset `o` comes from the first stream when `o` is a multiple of 8 and
//! from the second otherwise.

use crate::raster::Image;
use vstd::prelude::*;

verus! {

/// The bytes of `bytes` from index `start` up to and including index `end`;
/// empty when `start` is past `end`.
pub open spec fn pixel_block(bytes: Seq<u8>, start: int, end: int) -> Seq<u8> {
    if start <= end {
        bytes.subrange(start, end + 1)
    } else {
        Seq::empty()
    }
}

/// The merge of two pixel streams: as long as `first`, with byte `i` taken
/// from `first` when it lies in a pixel that starts at a multiple of 8, and
/// from `second` otherwise.
pub open spec fn interleaved(first: Seq<u8>, second: Seq<u8>) -> Seq<u8> {
    Seq::new(
        first.len(),
        |i: int|
            if i % 8 < 4 {
                first[i]
            } else {
                second[i]
            },
    )
}

/// Copies the bytes `start..=end` of `vec` into a vector of their own.
pub fn set_rgba(vec: &Vec<u8>, start: usize, end: usize) -> (rgba: Vec<u8>)
    requires
        start <= end ==> end < vec.len(),
    ensures
        rgba@ == pixel_block(vec@, start as int, end as int),
{
    let mut rgba: Vec<u8> = Vec::new();
    if start > end {
        return rgba;
    }
    let mut i: usize = start;
    while i <= end
        invariant
            start <= i <= end + 1,
            end < vec.len(),
            rgba@ == vec@.subrange(start as int, i as int),
        decreases end + 1 - i,
    {
        rgba.push(vec[i]);
        i += 1;
    }
    rgba
}

/// The sequence `bytes` with `block` written over it from index `at` on.
spec fn overwritten(bytes: Seq<u8>, at: int, block: Seq<u8>) -> Seq<u8> {
    Seq::new(
        bytes.len(),
        |k: int|
            if at <= k < at + block.len() {
                block[k - at]
            } else {
                bytes[k]
            },
    )
}

/// Overwrites the bytes of `target` from offset `at` on with `block`, leaving
/// the length and all other bytes as they were.
fn put_block(target: &mut Vec<u8>, at: usize, block: &Vec<u8>)
    requires
        at + block.len() <= old(target).len(),
    ensures
        final(target)@ == overwritten(old(target)@, at as int, block@),
{
    let mut j: usize = 0;
    while j < block.len()
        invariant
            j <= block.len(),
            at + block.len() <= target.len(),
            target@.len() == old(target)@.len(),
            target@ == overwritten(old(target)@, at as int, block@.take(j as int)),
        decreases block.len() - j,
    {
        let ghost before = target@;
        target.set(at + j, block[j]);
        assert(target@ =~= overwritten(old(target)@, at as int, block@.take(j + 1))) by {
            assert(target@ == before.update(at + j, block@[j as int]));
        }
        j += 1;
    }
    assert(block@.take(block.len() as int) =~= block@);
}

/// The first `upto` bytes of `out` are those of the merge of the two streams.
spec fn merged_up_to(out: Seq<u8>, first: Seq<u8>, second: Seq<u8>, upto: int) -> bool {
    forall|k: int| 0 <= k < upto ==> #[trigger] out[k] == interleaved(first, second)[k]
}

/// A byte lies in a pixel taken from the first stream exactly when that
/// pixel starts at a multiple of 8.
proof fn lemma_block_parity(o: int, k: int)
    requires
        0 <= o,
        o % 4 == 0,
        o <= k < o + 4,
    ensures
        (k % 8 < 4) == (o % 8 == 0),
{
    assert(o % 8 == 0 || o % 8 == 4);
    assert(k % 8 == o % 8 + (k - o));
}

/// Every byte of the pixel at pixel offset `o` of the merge is the byte at
/// the same place of the first stream when `o` is a multiple of 8, and of
/// the second stream otherwise.
proof fn lemma_interleaved_block(first: Seq<u8>, second: Seq<u8>, o: int)
    requires
        0 <= o,
        o % 4 == 0,
        o + 4 <= first.len(),
    ensures
        forall|k: int|
            o <= k < o + 4 ==> #[trigger] interleaved(first, second)[k] == if o % 8 == 0 {
                first[k]
            } else {
                second[k]
            },
{
    assert forall|k: int| o <= k < o + 4 implies #[trigger] interleaved(first, second)[k] == if o
        % 8 == 0 {
        first[k]
    } else {
        second[k]
    } by {
        lemma_block_parity(o, k);
    }
}

/// Writing the pixel at offset `o` of the stream whose turn it is over a
/// sequence that holds the merge up to `o` gives the merge up to `o + 4`.
proof fn lemma_merge_next_pixel(
    before: Seq<u8>,
    first: Seq<u8>,
    second: Seq<u8>,
    block: Seq<u8>,
    o: int,
)
    requires
        0 <= o,
        o % 4 == 0,
        o + 4 <= first.len(),
        first.len() == second.len(),
        first.len() == before.len(),
        merged_up_to(before, first, second, o),
        block == pixel_block(
            if o % 8 == 0 {
                first
            } else {
                second
            },
            o,
            o + 3,
        ),
    ensures
        merged_up_to(overwritten(before, o, block), first, second, o + 4),
{
    let after = overwritten(before, o, block);
    lemma_interleaved_block(first, second, o);
    assert forall|k: int| 0 <= k < o + 4 implies #[trigger] after[k] == interleaved(
        first,
        second,
    )[k] by {
        if k < o {
            assert(after[k] == before[k]);
        } else {
            assert(after[k] == block[k - o]);
        }
    }
}

/// Interleaves two pixel streams of one length, a multiple of four: walks
/// the byte offset in steps of one pixel and copies the pixel from `vec_1`
/// where the offset is a multiple of 8, from `vec_2` elsewhere.
pub fn alternate_pixels(vec_1: Vec<u8>, vec_2: Vec<u8>) -> (combined_data: Vec<u8>)
    requires
        vec_1.len() == vec_2.len(),
        vec_1.len() % 4 == 0,
    ensures
        combined_data@ == interleaved(vec_1@, vec_2@),
        combined_data@.len() == vec_1@.len(),
{
    let n: usize = vec_1.len();
    let mut combined_data: Vec<u8> = vec![0u8; n];
    let ghost pixels: int = n as int / 4;
    let ghost done: int = 0;
    let mut i: usize = 0;
    while i < n
        invariant
            n == 4 * pixels,
            i == 4 * done,
            0 <= done <= pixels,
            n == vec_1.len(),
            n == vec_2.len(),
            n == combined_data.len(),
            merged_up_to(combined_data@, vec_1@, vec_2@, i as int),
        decreases n - i,
    {
        let ghost before = combined_data@;
        let rgba: Vec<u8> = if i % 8 == 0 {
            set_rgba(&vec_1, i, i + 3)
        } else {
            set_rgba(&vec_2, i, i + 3)
        };
        put_block(&mut combined_data, i, &rgba);
        proof {
            lemma_merge_next_pixel(before, vec_1@, vec_2@, rgba@, i as int);
            done = done + 1;
        }
        i += 4;
    }
    assert(combined_data@ =~= interleaved(vec_1@, vec_2@));
    combined_data
}

/// Interleaves the pixels of two images of one size.
pub fn combine_images(image_1: Image, image_2: Image) -> (combined_data: Vec<u8>)
    requires
        image_1@.dimensions() == image_2@.dimensions(),
    ensures
        combined_data@ == interleaved(image_1@.data, image_2@.data),
        combined_data@.len() == image_1@.width as int * image_1@.height as int * 4,
{
    let vec_1: Vec<u8> = image_1.into_vec();
    let vec_2: Vec<u8> = image_2.into_vec();
    alternate_pixels(vec_1, vec_2)
}

/// In the merge of two streams of one length, a multiple of four, the pixel
/// at every pixel offset `o` is the pixel at `o` of the first stream when `o`
/// is a multiple of 8, and that of the second stream otherwise.
pub proof fn lemma_interleaved_pixels(first: Seq<u8>, second: Seq<u8>, o: int)
    requires
        first.len() == second.len(),
        first.len() % 4 == 0,
        0 <= o < first.len(),
        o % 4 == 0,
    ensures
        interleaved(first, second).len() == first.len(),
        o + 4 <= first.len(),
        interleaved(first, second).subrange(o, o + 4) == if o % 8 == 0 {
            first.subrange(o, o + 4)
        } else {
            second.subrange(o, o + 4)
        },
{
    let merged = interleaved(first, second);
    let source = if o % 8 == 0 {
        first
    } else {
        second
    };
    lemma_interleaved_block(first, second, o);
    assert forall|k: int| 0 <= k < 4 implies #[trigger] merged.subrange(o, o + 4)[k]
        == source.subrange(o, o + 4)[k] by {
        assert(merged[o + k] == source[o + k]);
    }
    assert(merged.subrange(o, o + 4) =~= source.subrange(o, o + 4));
}

/// Interleaving is a function of the two streams: any two results for the
/// same pair of streams are byte for byte the same.
pub proof fn lemma_interleaved_repeatable(
    first: Seq<u8>,
    second: Seq<u8>,
    once: Seq<u8>,
    again: Seq<u8>,
)
    requires
        once == interleaved(first, second),
        again == interleaved(first, second),
    ensures
        once == again,
{
}

/// Interleaving a stream with itself gives the stream back.
pub proof fn lemma_interleaved_with_itself(stream: Seq<u8>)
    ensures
        interleaved(stream, stream) == stream,
{
    assert(interleaved(stream, stream) =~= stream);
}

} // verus!
