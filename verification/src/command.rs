//! The commands that the display takes, and the command sequences that the
//! adapter's operations stand for.

use crate::color::Rgb888;
use crate::geometry::{Pixel, Point, Rectangle, Size};
use vstd::prelude::*;

verus! {

/// Rows at the top of the physical screen that belong to the status bar.
/// Every `y` sent to the display is moved down by this much.
pub const STATUS_BAR_OFFSET: i32 = 32;

/// When what has been drawn becomes visible.
#[derive(Clone, Copy, Debug, PartialEq, Eq, Structural)]
pub enum RenderMode {
    /// Every drawing command shows at once.
    Immediate,
    /// Drawing commands go to a hidden frame, which a render request shows.
    DoubleBuffered,
}

/// How the adapter gets individual pixels to the display.
#[derive(Clone, Copy, Debug, PartialEq, Eq, Structural)]
pub enum Strategy {
    /// Pixels are staged in the buffer, and every batch ends with a flush.
    AutoFlush,
    /// Pixels are staged in the buffer, and only `render` flushes.
    ManualFlush,
    /// Pixels go to the display one by one; the buffer is not used for them.
    Direct,
}

/// One request to the display. Coordinates are those of the physical screen,
/// status bar included, and rectangles include both their corners.
#[derive(Clone, Copy, Debug, PartialEq, Eq, Structural)]
pub enum Command {
    /// Switch to the given render mode.
    SetRenderMode(RenderMode),
    /// Make this stored colour the foreground colour.
    ForegroundColor(u32),
    /// Paint one pixel in the foreground colour.
    PixelSet { x: u32, y: u32 },
    /// Paint a rectangle in the foreground colour.
    RectFill { x1: i32, y1: i32, x2: i32, y2: i32 },
    /// Copy a rectangle out of the adapter's buffer: the rectangle's rows
    /// follow one another from the start of the buffer, `stride` words apart.
    CopyRect { x1: i32, y1: i32, x2: i32, y2: i32, stride: i32 },
    /// Show what has been drawn since the last such request.
    Render,
}

impl Default for Strategy {
    /// The strategy of choice: stage every batch and flush when it is done.
    fn default() -> (strategy: Self)
        ensures
            strategy == Strategy::AutoFlush,
    {
        Strategy::AutoFlush
    }
}

impl Strategy {
    /// Whether pixels are staged in the buffer before they reach the display.
    pub open spec fn buffered(self) -> bool {
        !(self is Direct)
    }

    /// Tells whether pixels are staged in the buffer.
    pub fn is_buffered(&self) -> (staged: bool)
        ensures
            staged == self.buffered(),
    {
        match self {
            Strategy::Direct => false,
            _ => true,
        }
    }
}

/// Whether the display can be told about `area`: an empty rectangle always,
/// another one when its corners can be written in `i32` before and after
/// they are moved below the status bar.
pub open spec fn addressable(area: Rectangle) -> bool {
    area.is_empty() || {
        &&& area.bounded()
        &&& area.top_left.y + area.size.height + STATUS_BAR_OFFSET - 1 <= i32::MAX
    }
}

/// Tells whether the display can be told about `area`.
pub fn is_addressable(area: &Rectangle) -> (ok: bool)
    ensures
        ok == addressable(*area),
{
    if area.size.width == 0 || area.size.height == 0 {
        return true;
    }
    let bottom: i64 = area.top_left.y as i64 + area.size.height as i64 + STATUS_BAR_OFFSET as i64
        - 1;
    area.is_bounded() && bottom <= i32::MAX as i64
}

/// The corners of a rectangle as the display takes them, moved below the
/// status bar: `(x1, y1, x2, y2)`, or `None` for an empty rectangle.
pub open spec fn corners_of(area: Rectangle) -> Option<(i32, i32, i32, i32)> {
    if area.is_empty() {
        None
    } else {
        Some(
            (
                area.top_left.x,
                (area.top_left.y + STATUS_BAR_OFFSET) as i32,
                (area.top_left.x + area.size.width - 1) as i32,
                (area.top_left.y + area.size.height - 1 + STATUS_BAR_OFFSET) as i32,
            ),
        )
    }
}

/// Computes the corners of a rectangle as the display takes them.
pub fn corners(area: &Rectangle) -> (found: Option<(i32, i32, i32, i32)>)
    requires
        addressable(*area),
    ensures
        found == corners_of(*area),
{
    match area.bottom_right() {
        Some(corner) => Some(
            (
                area.top_left.x,
                area.top_left.y + STATUS_BAR_OFFSET,
                corner.x,
                corner.y + STATUS_BAR_OFFSET,
            ),
        ),
        None => None,
    }
}

/// The rectangle fill over a rectangle that has pixels.
pub open spec fn fill_of(area: Rectangle) -> Command {
    Command::RectFill {
        x1: area.top_left.x,
        y1: (area.top_left.y + STATUS_BAR_OFFSET) as i32,
        x2: (area.top_left.x + area.size.width - 1) as i32,
        y2: (area.top_left.y + area.size.height - 1 + STATUS_BAR_OFFSET) as i32,
    }
}

/// The copy, out of the buffer, into a rectangle that has pixels. The rows
/// lie in the buffer without gaps.
pub open spec fn copy_of(area: Rectangle) -> Command {
    Command::CopyRect {
        x1: area.top_left.x,
        y1: (area.top_left.y + STATUS_BAR_OFFSET) as i32,
        x2: (area.top_left.x + area.size.width - 1) as i32,
        y2: (area.top_left.y + area.size.height - 1 + STATUS_BAR_OFFSET) as i32,
        stride: area.size.width as i32,
    }
}

/// What filling `area` with one colour asks of the display: nothing for an
/// empty rectangle, else the colour and one fill.
pub open spec fn solid_commands(area: Rectangle, color: Rgb888) -> Seq<Command> {
    if area.is_empty() {
        Seq::empty()
    } else {
        seq![Command::ForegroundColor(color.storage()), fill_of(area)]
    }
}

/// What filling `area` from the buffer asks of the display: nothing for an
/// empty rectangle, else one copy.
pub open spec fn block_commands(area: Rectangle) -> Seq<Command> {
    if area.is_empty() {
        Seq::empty()
    } else {
        seq![copy_of(area)]
    }
}

/// The whole drawable part of a display of the given size.
pub open spec fn whole(size: Size) -> Rectangle {
    Rectangle { top_left: Point { x: 0, y: 0 }, size }
}

/// What a flush asks: the copy of the whole buffer, then a render request.
pub open spec fn flush_commands(size: Size) -> Seq<Command> {
    block_commands(whole(size)) + seq![Command::Render]
}

/// Whether `point` lies on a display of the given size.
pub open spec fn on_screen(point: Point, size: Size) -> bool {
    0 <= point.x < size.width && 0 <= point.y < size.height
}

/// What one pixel asks when it goes to the display by itself: nothing when
/// it lies off the display, else its colour and one pixel write.
pub open spec fn pixel_commands(size: Size, pixel: Pixel) -> Seq<Command> {
    if on_screen(pixel.0, size) {
        seq![
            Command::ForegroundColor(pixel.1.storage()),
            Command::PixelSet { x: pixel.0.x as u32, y: (pixel.0.y + STATUS_BAR_OFFSET) as u32 },
        ]
    } else {
        Seq::empty()
    }
}

/// What a batch of pixels asks when each goes by itself, in the batch's order.
pub open spec fn direct_commands(size: Size, pixels: Seq<Pixel>) -> Seq<Command>
    decreases pixels.len(),
{
    if pixels.len() == 0 {
        Seq::empty()
    } else {
        direct_commands(size, pixels.drop_last()) + pixel_commands(size, pixels.last())
    }
}

/// Pixels off the display ask nothing of it.
pub proof fn lemma_direct_commands_off_screen(size: Size, pixels: Seq<Pixel>)
    requires
        forall|k: int| 0 <= k < pixels.len() ==> !on_screen(#[trigger] pixels[k].0, size),
    ensures
        direct_commands(size, pixels) == Seq::<Command>::empty(),
    decreases pixels.len(),
{
    if pixels.len() > 0 {
        let front = pixels.drop_last();
        assert forall|k: int| 0 <= k < front.len() implies !on_screen(
            #[trigger] front[k].0,
            size,
        ) by {
            assert(front[k] == pixels[k]);
        }
        lemma_direct_commands_off_screen(size, front);
        assert(!on_screen(pixels[pixels.len() - 1].0, size));
    }
}

} // verus!
