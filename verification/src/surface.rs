//! What the commands mean: a model of the frame that the display paints on.
//!
//! The model is a plane of stored colours, one for every pair of integer
//! coordinates, together with the foreground colour. It has no edges: the
//! display shows the part of the plane that its screen covers. Nothing here
//! runs; the laws below say what the adapter's command sequences paint.

use crate::buffer::{index_of, lemma_index_in_range, staged, stored, with_block};
use crate::color::Rgb888;
use crate::command::{
    addressable, block_commands, copy_of, direct_commands, fill_of, flush_commands, on_screen,
    pixel_commands, solid_commands, whole, Command, STATUS_BAR_OFFSET,
};
use crate::driver::supported;
use crate::geometry::{Pixel, Point, Rectangle, Size};
use vstd::prelude::*;

verus! {

/// The frame that drawing commands paint on.
#[verifier::ext_equal]
pub struct Surface {
    /// The foreground colour, as the display stores it.
    pub foreground: u32,
    /// The stored colour at each position of the physical screen's plane.
    pub pixel: spec_fn(int, int) -> u32,
}

/// Whether `(x, y)` lies in the rectangle with the given corners, both
/// corners included.
pub open spec fn within(x1: int, y1: int, x2: int, y2: int, x: int, y: int) -> bool {
    x1 <= x <= x2 && y1 <= y <= y2
}

/// The frame after one command. `source` is the adapter's buffer, which a
/// copy reads row by row, `stride` entries apart.
pub open spec fn paint(surface: Surface, command: Command, source: Seq<u32>) -> Surface {
    match command {
        Command::ForegroundColor(color) => Surface { foreground: color, ..surface },
        Command::PixelSet { x, y } => Surface {
            pixel: |px: int, py: int|
                if px == x && py == y {
                    surface.foreground
                } else {
                    (surface.pixel)(px, py)
                },
            ..surface
        },
        Command::RectFill { x1, y1, x2, y2 } => Surface {
            pixel: |px: int, py: int|
                if within(x1 as int, y1 as int, x2 as int, y2 as int, px, py) {
                    surface.foreground
                } else {
                    (surface.pixel)(px, py)
                },
            ..surface
        },
        Command::CopyRect { x1, y1, x2, y2, stride } => Surface {
            pixel: |px: int, py: int|
                if within(x1 as int, y1 as int, x2 as int, y2 as int, px, py) {
                    source[(py - y1) * stride + (px - x1)]
                } else {
                    (surface.pixel)(px, py)
                },
            ..surface
        },
        Command::SetRenderMode(_) => surface,
        Command::Render => surface,
    }
}

/// The frame after a sequence of commands, first to last.
pub open spec fn paint_all(surface: Surface, commands: Seq<Command>, source: Seq<u32>) -> Surface
    decreases commands.len(),
{
    if commands.len() == 0 {
        surface
    } else {
        paint(paint_all(surface, commands.drop_last(), source), commands.last(), source)
    }
}

/// Whether the buffer mirrors the frame: every pixel of the display has in
/// the buffer the stored colour that the frame shows for it, one status bar
/// further down.
pub open spec fn mirrors(buffer: Seq<u32>, size: Size, surface: Surface) -> bool {
    forall|x: int, y: int|
        0 <= x < size.width && 0 <= y < size.height ==> buffer[y * size.width + x] == (
        #[trigger] (surface.pixel)(x, y + STATUS_BAR_OFFSET))
}

/// Painting one sequence after another is painting their concatenation.
pub proof fn lemma_paint_all_append(
    surface: Surface,
    first: Seq<Command>,
    second: Seq<Command>,
    source: Seq<u32>,
)
    ensures
        paint_all(surface, first + second, source) == paint_all(
            paint_all(surface, first, source),
            second,
            source,
        ),
    decreases second.len(),
{
    if second.len() == 0 {
        assert(first + second =~= first);
    } else {
        assert((first + second).drop_last() =~= first + second.drop_last());
        assert((first + second).last() == second.last());
        lemma_paint_all_append(surface, first, second.drop_last(), source);
    }
}

/// Painting a single command.
pub proof fn lemma_paint_all_one(surface: Surface, command: Command, source: Seq<u32>)
    ensures
        paint_all(surface, seq![command], source) == paint(surface, command, source),
{
    assert(seq![command].drop_last() =~= Seq::<Command>::empty());
    assert(paint_all(surface, seq![command].drop_last(), source) == surface);
}

/// Painting two commands.
pub proof fn lemma_paint_all_two(surface: Surface, a: Command, b: Command, source: Seq<u32>)
    ensures
        paint_all(surface, seq![a, b], source) == paint(paint(surface, a, source), b, source),
{
    assert(seq![a, b].drop_last() =~= seq![a]);
    lemma_paint_all_one(surface, a, source);
}

/// What a solid fill paints: the rectangle's pixels get the colour, every
/// other position keeps what it showed, and the colour is left as the
/// foreground colour. An empty rectangle leaves the frame as it was.
pub proof fn lemma_solid_fill_paints(
    surface: Surface,
    area: Rectangle,
    color: Rgb888,
    source: Seq<u32>,
)
    requires
        addressable(area),
    ensures
        area.is_empty() ==> paint_all(surface, solid_commands(area, color), source) == surface,
        !area.is_empty() ==> paint_all(surface, solid_commands(area, color), source).foreground
            == color.storage(),
        forall|x: int, y: int|
            #![trigger (paint_all(surface, solid_commands(area, color), source).pixel)(x, y)]
            (paint_all(surface, solid_commands(area, color), source).pixel)(x, y) == if area.covers(
                x,
                y - STATUS_BAR_OFFSET,
            ) {
                color.storage()
            } else {
                (surface.pixel)(x, y)
            },
{
    if !area.is_empty() {
        lemma_paint_all_two(
            surface,
            Command::ForegroundColor(color.storage()),
            fill_of(area),
            source,
        );
    }
}

/// A solid fill issued twice in a row shows what it shows issued once.
pub proof fn lemma_solid_fill_idempotent(
    surface: Surface,
    area: Rectangle,
    color: Rgb888,
    source: Seq<u32>,
)
    requires
        addressable(area),
    ensures
        paint_all(surface, solid_commands(area, color) + solid_commands(area, color), source)
            == paint_all(surface, solid_commands(area, color), source),
{
    let once = paint_all(surface, solid_commands(area, color), source);
    let twice = paint_all(once, solid_commands(area, color), source);
    lemma_paint_all_append(
        surface,
        solid_commands(area, color),
        solid_commands(area, color),
        source,
    );
    lemma_solid_fill_paints(surface, area, color, source);
    lemma_solid_fill_paints(once, area, color, source);
    assert(twice =~= once) by {
        assert forall|x: int, y: int| #[trigger] (twice.pixel)(x, y) == (once.pixel)(x, y) by {}
        assert(twice.pixel =~= once.pixel);
    }
}

/// What a block fill paints: once the block's colours lie at the start of
/// the buffer, the copy shows them in the rectangle row by row, from the
/// top-left pixel on, and every other position keeps what it showed.
pub proof fn lemma_block_fill_paints(
    surface: Surface,
    area: Rectangle,
    colors: Seq<Rgb888>,
    buffer: Seq<u32>,
)
    requires
        addressable(area),
        colors.len() == area.pixel_count(),
        colors.len() <= buffer.len(),
    ensures
        forall|x: int, y: int|
            #![trigger (paint_all(surface, block_commands(area), with_block(buffer, stored(colors))).pixel)(x, y)]
            (paint_all(surface, block_commands(area), with_block(buffer, stored(colors))).pixel)(
                x,
                y,
            ) == if area.covers(x, y - STATUS_BAR_OFFSET) {
                colors[(y - STATUS_BAR_OFFSET - area.top_left.y) * area.size.width + (x
                    - area.top_left.x)].storage()
            } else {
                (surface.pixel)(x, y)
            },
{
    let source = with_block(buffer, stored(colors));
    let after = paint_all(surface, block_commands(area), source);
    if !area.is_empty() {
        lemma_paint_all_one(surface, copy_of(area), source);
        assert forall|x: int, y: int| area.covers(x, y - STATUS_BAR_OFFSET) implies (
        #[trigger] (after.pixel)(x, y)) == colors[(y - STATUS_BAR_OFFSET - area.top_left.y) * area.size.width + (x
            - area.top_left.x)].storage() by {
            let row = y - STATUS_BAR_OFFSET - area.top_left.y;
            let column = x - area.top_left.x;
            let w = area.size.width as int;
            let h = area.size.height as int;
            assert(0 <= row * w + column < w * h) by (nonlinear_arith)
                requires
                    0 <= row < h,
                    0 <= column < w,
            ;
            assert(source[row * w + column] == stored(colors)[row * w + column]);
        }
    }
}

/// What a flush paints: the display's part of the frame shows the buffer,
/// so the buffer mirrors the frame afterwards.
pub proof fn lemma_flush_paints(surface: Surface, size: Size, buffer: Seq<u32>)
    requires
        supported(size),
        buffer.len() == size.area(),
    ensures
        mirrors(buffer, size, paint_all(surface, flush_commands(size), buffer)),
        paint_all(surface, flush_commands(size), buffer).foreground == surface.foreground,
        forall|x: int, y: int|
            !(0 <= x < size.width && 0 <= y - STATUS_BAR_OFFSET < size.height) ==> (
            #[trigger] (paint_all(surface, flush_commands(size), buffer).pixel)(x, y)) == (
            surface.pixel)(x, y),
{
    let copied = paint_all(surface, block_commands(whole(size)), buffer);
    lemma_paint_all_append(surface, block_commands(whole(size)), seq![Command::Render], buffer);
    lemma_paint_all_one(copied, Command::Render, buffer);
    if !whole(size).is_empty() {
        lemma_paint_all_one(surface, copy_of(whole(size)), buffer);
    }
}

/// Sending pixels one by one keeps a mirror: where the buffer mirrors the
/// frame, the buffer with a batch staged mirrors the frame with the same
/// batch painted pixel by pixel.
pub proof fn lemma_direct_keeps_mirror(
    surface: Surface,
    size: Size,
    buffer: Seq<u32>,
    pixels: Seq<Pixel>,
    source: Seq<u32>,
)
    requires
        supported(size),
        buffer.len() == size.area(),
        mirrors(buffer, size, surface),
    ensures
        mirrors(
            staged(buffer, size, pixels),
            size,
            paint_all(surface, direct_commands(size, pixels), source),
        ),
    decreases pixels.len(),
{
    if pixels.len() > 0 {
        let front = pixels.drop_last();
        let last = pixels.last();
        let before_buffer = staged(buffer, size, front);
        let before = paint_all(surface, direct_commands(size, front), source);
        lemma_direct_keeps_mirror(surface, size, buffer, front, source);
        crate::buffer::lemma_staged_len(buffer, size, front);
        lemma_paint_all_append(
            surface,
            direct_commands(size, front),
            pixel_commands(size, last),
            source,
        );
        let after = paint_all(before, pixel_commands(size, last), source);
        let after_buffer = staged(buffer, size, pixels);
        if on_screen(last.0, size) {
            lemma_paint_all_two(
                before,
                Command::ForegroundColor(last.1.storage()),
                Command::PixelSet {
                    x: last.0.x as u32,
                    y: (last.0.y + STATUS_BAR_OFFSET) as u32,
                },
                source,
            );
            lemma_index_in_range(last.0, size);
            assert forall|x: int, y: int|
                0 <= x < size.width && 0 <= y < size.height implies after_buffer[y * size.width
                + x] == (#[trigger] (after.pixel)(x, y + STATUS_BAR_OFFSET)) by {
                let here = Point { x: x as i32, y: y as i32 };
                lemma_index_in_range(here, size);
                if index_of(here, size) == index_of(last.0, size) {
                    crate::buffer::lemma_index_injective(here, last.0, size);
                }
                assert(before_buffer[y * size.width + x] == (before.pixel)(
                    x,
                    y + STATUS_BAR_OFFSET,
                ));
            }
        } else {
            assert(after == before);
        }
    }
}

} // verus!
