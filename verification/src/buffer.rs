//! What the drawing operations do to the intermediate buffer. The buffer
//! holds one stored colour for each pixel of the display, row after row:
//! the pixel `(x, y)` is at index `y * width + x`.

use crate::color::Rgb888;
use crate::command::on_screen;
use crate::geometry::{Pixel, Point, Size};
use vstd::prelude::*;

verus! {

/// The buffer index of a point on a display that is `width` pixels wide.
pub open spec fn index_of(point: Point, size: Size) -> int {
    point.y * size.width + point.x
}

/// The buffer after one pixel has been staged: unchanged where the pixel
/// lies off the display, else with the pixel's stored colour at its index.
pub open spec fn stage(buffer: Seq<u32>, size: Size, pixel: Pixel) -> Seq<u32> {
    if on_screen(pixel.0, size) {
        buffer.update(index_of(pixel.0, size), pixel.1.storage())
    } else {
        buffer
    }
}

/// The buffer after a batch of pixels has been staged, first to last.
pub open spec fn staged(buffer: Seq<u32>, size: Size, pixels: Seq<Pixel>) -> Seq<u32>
    decreases pixels.len(),
{
    if pixels.len() == 0 {
        buffer
    } else {
        stage(staged(buffer, size, pixels.drop_last()), size, pixels.last())
    }
}

/// Whether no pixel of the batch that lies on the display has `i` for its
/// index.
pub open spec fn untouched(size: Size, pixels: Seq<Pixel>, i: int) -> bool {
    forall|k: int|
        0 <= k < pixels.len() && on_screen(#[trigger] pixels[k].0, size) ==> index_of(
            pixels[k].0,
            size,
        ) != i
}

/// Whether every pixel of the batch lies off the display.
pub open spec fn all_off_screen(size: Size, pixels: Seq<Pixel>) -> bool {
    forall|k: int| 0 <= k < pixels.len() ==> !on_screen(#[trigger] pixels[k].0, size)
}

/// The stored colours of a sequence of colours, in the same order.
pub open spec fn stored(colors: Seq<Rgb888>) -> Seq<u32> {
    colors.map_values(|c: Rgb888| c.storage())
}

/// The buffer after a block of words has been laid at its start: the words,
/// then what the buffer held behind them.
pub open spec fn with_block(buffer: Seq<u32>, words: Seq<u32>) -> Seq<u32> {
    words + buffer.subrange(words.len() as int, buffer.len() as int)
}

/// A point on the display has an index inside a buffer of `width * height`
/// entries.
pub proof fn lemma_index_in_range(point: Point, size: Size)
    requires
        on_screen(point, size),
    ensures
        0 <= index_of(point, size) < size.area(),
{
    let y = point.y as int;
    let w = size.width as int;
    let h = size.height as int;
    assert(0 <= y * w) by (nonlinear_arith)
        requires
            0 <= y,
            0 <= w,
    ;
    assert(y * w + w <= h * w) by (nonlinear_arith)
        requires
            0 <= y < h,
            0 <= w,
    ;
    assert(h * w == w * h) by (nonlinear_arith);
}

/// Two points on the display with the same index are the same point.
pub proof fn lemma_index_injective(a: Point, b: Point, size: Size)
    requires
        on_screen(a, size),
        on_screen(b, size),
        index_of(a, size) == index_of(b, size),
    ensures
        a == b,
{
    let w = size.width as int;
    let (ax, ay, bx, by) = (a.x as int, a.y as int, b.x as int, b.y as int);
    assert(ay == by) by (nonlinear_arith)
        requires
            0 <= ax < w,
            0 <= bx < w,
            ay * w + ax == by * w + bx,
    ;
}

/// Staging keeps the buffer's length.
pub proof fn lemma_staged_len(buffer: Seq<u32>, size: Size, pixels: Seq<Pixel>)
    requires
        buffer.len() == size.area(),
    ensures
        staged(buffer, size, pixels).len() == buffer.len(),
    decreases pixels.len(),
{
    if pixels.len() > 0 {
        lemma_staged_len(buffer, size, pixels.drop_last());
        if on_screen(pixels.last().0, size) {
            lemma_index_in_range(pixels.last().0, size);
        }
    }
}

/// Pixels off the display are dropped: an entry of the buffer that no pixel
/// of the batch on the display has for its index is what it was.
pub proof fn lemma_staged_elsewhere(buffer: Seq<u32>, size: Size, pixels: Seq<Pixel>, i: int)
    requires
        buffer.len() == size.area(),
        0 <= i < buffer.len(),
        untouched(size, pixels, i),
    ensures
        staged(buffer, size, pixels)[i] == buffer[i],
    decreases pixels.len(),
{
    if pixels.len() > 0 {
        let front = pixels.drop_last();
        assert(untouched(size, front, i)) by {
            assert forall|k: int| 0 <= k < front.len() && on_screen(#[trigger] front[k].0, size)
                implies index_of(front[k].0, size) != i by {
                assert(front[k] == pixels[k]);
            }
        }
        lemma_staged_elsewhere(buffer, size, front, i);
        lemma_staged_len(buffer, size, front);
        let last = pixels[pixels.len() - 1];
        if on_screen(last.0, size) {
            lemma_index_in_range(last.0, size);
            assert(index_of(last.0, size) != i);
        }
    }
}

/// A batch whose pixels all lie off the display leaves the buffer as it was.
pub proof fn lemma_staged_off_screen(buffer: Seq<u32>, size: Size, pixels: Seq<Pixel>)
    requires
        all_off_screen(size, pixels),
    ensures
        staged(buffer, size, pixels) == buffer,
    decreases pixels.len(),
{
    if pixels.len() > 0 {
        let front = pixels.drop_last();
        assert(all_off_screen(size, front)) by {
            assert forall|k: int| 0 <= k < front.len() implies !on_screen(
                #[trigger] front[k].0,
                size,
            ) by {
                assert(front[k] == pixels[k]);
            }
        }
        lemma_staged_off_screen(buffer, size, front);
        assert(!on_screen(pixels[pixels.len() - 1].0, size));
    }
}

/// The last write wins: after a batch, the entry of a pixel on the display
/// holds that pixel's colour, unless a later pixel of the batch has the same
/// position.
pub proof fn lemma_staged_last_write(buffer: Seq<u32>, size: Size, pixels: Seq<Pixel>, k: int)
    requires
        buffer.len() == size.area(),
        0 <= k < pixels.len(),
        on_screen(pixels[k].0, size),
        forall|j: int| k < j < pixels.len() ==> (#[trigger] pixels[j]).0 != pixels[k].0,
    ensures
        staged(buffer, size, pixels)[index_of(pixels[k].0, size)] == pixels[k].1.storage(),
    decreases pixels.len(),
{
    let front = pixels.drop_last();
    let last = pixels[pixels.len() - 1];
    let i = index_of(pixels[k].0, size);
    lemma_staged_len(buffer, size, front);
    lemma_index_in_range(pixels[k].0, size);
    if k == pixels.len() - 1 {
    } else {
        assert(front[k] == pixels[k]);
        assert forall|j: int| k < j < front.len() implies (#[trigger] front[j]).0
            != front[k].0 by {
            assert(front[j] == pixels[j]);
        }
        lemma_staged_last_write(buffer, size, front, k);
        assert(last.0 != pixels[k].0);
        if on_screen(last.0, size) {
            if index_of(last.0, size) == i {
                lemma_index_injective(last.0, pixels[k].0, size);
            }
            lemma_index_in_range(last.0, size);
        }
    }
}

/// Reading a block back: the first entries of the buffer are the block's
/// words in their order, and the entries behind them are what they were.
pub proof fn lemma_block_read_back(buffer: Seq<u32>, words: Seq<u32>)
    requires
        words.len() <= buffer.len(),
    ensures
        with_block(buffer, words).len() == buffer.len(),
        with_block(buffer, words).subrange(0, words.len() as int) == words,
        forall|i: int|
            0 <= i < words.len() ==> (#[trigger] with_block(buffer, words)[i]) == words[i],
        forall|i: int|
            words.len() <= i < buffer.len() ==> (#[trigger] with_block(buffer, words)[i])
                == buffer[i],
{
    assert(with_block(buffer, words).subrange(0, words.len() as int) =~= words);
}

} // verus!
