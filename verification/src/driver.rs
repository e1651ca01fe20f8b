//! The display adapter: the buffer, the render mode, and the drawing
//! operations.

use crate::buffer::{
    all_off_screen, lemma_block_read_back, lemma_index_in_range, lemma_staged_elsewhere,
    lemma_staged_off_screen, staged, stored, untouched, with_block,
};
use crate::color::Rgb888;
use crate::command::{
    addressable, block_commands, corners, direct_commands, flush_commands, is_addressable,
    on_screen, pixel_commands, solid_commands, Command, RenderMode, Strategy, STATUS_BAR_OFFSET,
};
use crate::geometry::{Pixel, Point, Rectangle, Size};
use vstd::prelude::*;

verus! {

/// The adapter between a drawing layer and the display.
///
/// It holds one stored colour for every pixel of the display, the strategy
/// it was made with, and the render mode the display is in. It does not hold
/// the display: each operation returns the commands for it, in the order in
/// which they are to be carried out, and `CopyRect` commands read from
/// `buffer()` as it is when the operation has returned.
///
/// The buffer serves two ends. `draw_iter` stages pixels in it, each at its
/// own index, and a flush copies all of it. `fill_contiguous` lays a block
/// of colours at its start on the way to the display, over what was staged
/// there.
///
/// There is no operation that clears the display: its own erase cannot be
/// given a colour. `fill_solid` over the whole display does it.
pub struct DisplayDriver {
    size: Size,
    strategy: Strategy,
    render_mode: RenderMode,
    direct_below: usize,
    buffer: Vec<u32>,
}

/// What an adapter is, for the contracts of its operations.
pub struct State {
    /// The display's resolution.
    pub size: Size,
    /// How pixels get to the display.
    pub strategy: Strategy,
    /// The render mode the display is in.
    pub render_mode: RenderMode,
    /// Batches with fewer pixels than this go pixel by pixel under
    /// `Strategy::AutoFlush`.
    pub direct_below: usize,
    /// The intermediate buffer.
    pub buffer: Seq<u32>,
}

/// Whether an adapter can be made for a display of this size: the display's
/// corners, moved below the status bar, can be written in `i32`, and the
/// number of its pixels in `usize`.
pub open spec fn supported(size: Size) -> bool {
    &&& size.width <= i32::MAX
    &&& size.height + STATUS_BAR_OFFSET - 1 <= i32::MAX
    &&& size.area() <= usize::MAX
}

impl State {
    /// What holds of every adapter: its buffer has one entry for each pixel
    /// of a supported display, and a strategy that stages pixels keeps the
    /// display double-buffered.
    pub open spec fn wf(self) -> bool {
        &&& supported(self.size)
        &&& self.buffer.len() == self.size.area()
        &&& self.strategy.buffered() ==> self.render_mode is DoubleBuffered
    }

    /// Whether a batch of `count` pixels goes to the display pixel by pixel.
    pub open spec fn sends_directly(self, count: nat) -> bool {
        match self.strategy {
            Strategy::Direct => true,
            Strategy::AutoFlush => count < self.direct_below,
            Strategy::ManualFlush => false,
        }
    }

    /// The buffer after a batch of pixels: staged under the strategies that
    /// use the buffer, untouched under `Strategy::Direct`.
    pub open spec fn drawn(self, pixels: Seq<Pixel>) -> Seq<u32> {
        if self.strategy.buffered() {
            staged(self.buffer, self.size, pixels)
        } else {
            self.buffer
        }
    }

    /// The commands for a batch of pixels.
    pub open spec fn draw_commands(self, pixels: Seq<Pixel>) -> Seq<Command> {
        match self.strategy {
            Strategy::Direct => direct_commands(self.size, pixels),
            Strategy::ManualFlush => Seq::empty(),
            Strategy::AutoFlush => if pixels.len() < self.direct_below {
                direct_commands(self.size, pixels) + seq![Command::Render]
            } else {
                flush_commands(self.size)
            },
        }
    }

    /// The commands of an explicit render request: a flush where pixels are
    /// staged, else a render request where the display is double-buffered.
    pub open spec fn render_commands(self) -> Seq<Command> {
        if self.strategy.buffered() {
            flush_commands(self.size)
        } else if self.render_mode is DoubleBuffered {
            seq![Command::Render]
        } else {
            Seq::empty()
        }
    }

    /// Whether a block of `count` colours for `area` can be taken: the
    /// display can be told about the rectangle, and where the rectangle has
    /// pixels, neither they nor the colours outnumber the buffer's entries.
    pub open spec fn accepts_block(self, area: Rectangle, count: nat) -> bool {
        &&& addressable(area)
        &&& !area.is_empty() ==> count <= self.buffer.len() && area.pixel_count()
            <= self.buffer.len()
    }
}

impl View for DisplayDriver {
    type V = State;

    closed spec fn view(&self) -> State {
        State {
            size: self.size,
            strategy: self.strategy,
            render_mode: self.render_mode,
            direct_below: self.direct_below,
            buffer: self.buffer@,
        }
    }
}

impl DisplayDriver {
    #[verifier::type_invariant]
    spec fn inv(self) -> bool {
        self@.wf()
    }

    /// Tells whether an adapter can be made for a display of this size.
    pub fn supports(size: Size) -> (ok: bool)
        ensures
            ok == supported(size),
    {
        if size.width > i32::MAX as u32 || size.height > (i32::MAX - STATUS_BAR_OFFSET + 1) as u32 {
            return false;
        }
        assert(size.width * size.height <= 0x8000_0000 * 0x8000_0000) by (nonlinear_arith)
            requires
                size.width <= 0x8000_0000,
                size.height <= 0x8000_0000,
        ;
        let area: u64 = size.width as u64 * size.height as u64;
        area <= usize::MAX as u64
    }

    /// Makes the adapter for a display of the given size, which is in render
    /// mode `mode`, and returns with it the commands that the display has to
    /// get first.
    ///
    /// The buffer starts out all zero. A strategy that stages pixels needs
    /// the display double-buffered: it asks for that mode whatever `mode`
    /// is. `Strategy::Direct` leaves the display in the mode it is in.
    pub fn new(size: Size, strategy: Strategy, mode: RenderMode) -> (made: (Self, Vec<Command>))
        requires
            supported(size),
        ensures
            made.0@.wf(),
            made.0@ == (State {
                size,
                strategy,
                render_mode: if strategy.buffered() {
                    RenderMode::DoubleBuffered
                } else {
                    mode
                },
                direct_below: 0,
                buffer: Seq::new(size.area(), |i: int| 0u32),
            }),
            made.1@ == if strategy.buffered() {
                seq![Command::SetRenderMode(RenderMode::DoubleBuffered)]
            } else {
                Seq::<Command>::empty()
            },
    {
        let entries: usize = size.width as usize * size.height as usize;
        let buffer: Vec<u32> = vec![0u32; entries];
        assert(buffer@ =~= Seq::new(size.area(), |i: int| 0u32));
        let mut commands: Vec<Command> = Vec::new();
        let render_mode = if strategy.is_buffered() {
            commands.push(Command::SetRenderMode(RenderMode::DoubleBuffered));
            RenderMode::DoubleBuffered
        } else {
            mode
        };
        (DisplayDriver { size, strategy, render_mode, direct_below: 0, buffer }, commands)
    }

    /// Sets the batch size below which `Strategy::AutoFlush` sends a batch
    /// pixel by pixel, followed by a render request, in place of a flush.
    /// The pixels are staged all the same. With 0, the value an adapter
    /// starts with, every batch ends with a flush.
    pub fn with_direct_below(self, count: usize) -> (driver: Self)
        ensures
            driver@.wf(),
            driver@ == (State { direct_below: count, ..self@ }),
    {
        proof {
            use_type_invariant(&self);
        }
        DisplayDriver {
            size: self.size,
            strategy: self.strategy,
            render_mode: self.render_mode,
            direct_below: count,
            buffer: self.buffer,
        }
    }

    /// The display's resolution.
    pub fn size(&self) -> (size: Size)
        ensures
            size == self@.size,
            self@.wf(),
    {
        proof {
            use_type_invariant(self);
        }
        self.size
    }

    /// The strategy the adapter was made with.
    pub fn strategy(&self) -> (strategy: Strategy)
        ensures
            strategy == self@.strategy,
    {
        self.strategy
    }

    /// The intermediate buffer: one stored colour for each pixel, row after
    /// row. This is what a `CopyRect` command reads from.
    pub fn buffer(&self) -> (words: &[u32])
        ensures
            words@ == self@.buffer,
            words@.len() == self@.size.area(),
    {
        proof {
            use_type_invariant(self);
        }
        self.buffer.as_slice()
    }

    /// The render mode the display is in.
    pub fn render_mode(&self) -> (mode: RenderMode)
        ensures
            mode == self@.render_mode,
            self@.strategy.buffered() ==> mode is DoubleBuffered,
    {
        proof {
            use_type_invariant(self);
        }
        self.render_mode
    }

    /// Asks for another render mode. Under `Strategy::Direct` the mode is
    /// taken over and the display is told. A strategy that stages pixels
    /// keeps the display double-buffered: the request changes nothing and
    /// returns no command.
    pub fn set_render_mode(&mut self, mode: RenderMode) -> (commands: Vec<Command>)
        ensures
            final(self)@.wf(),
            final(self)@ == (State {
                render_mode: if old(self)@.strategy.buffered() {
                    old(self)@.render_mode
                } else {
                    mode
                },
                ..old(self)@
            }),
            commands@ == if old(self)@.strategy.buffered() {
                Seq::<Command>::empty()
            } else {
                seq![Command::SetRenderMode(mode)]
            },
    {
        proof {
            use_type_invariant(&*self);
        }
        let mut commands: Vec<Command> = Vec::new();
        if !self.strategy.is_buffered() {
            self.render_mode = mode;
            commands.push(Command::SetRenderMode(mode));
        }
        commands
    }

    /// The commands that bring the display up to date: under a strategy that
    /// stages pixels, the copy of the whole buffer and a render request;
    /// under `Strategy::Direct`, a render request where the display is
    /// double-buffered and nothing where it is not. The adapter stays as it
    /// is.
    pub fn render(&mut self) -> (commands: Vec<Command>)
        ensures
            final(self)@ == old(self)@,
            final(self)@.wf(),
            commands@ == old(self)@.render_commands(),
    {
        proof {
            use_type_invariant(&*self);
        }
        if self.strategy.is_buffered() {
            self.flush()
        } else {
            let mut commands: Vec<Command> = Vec::new();
            match self.render_mode {
                RenderMode::DoubleBuffered => {
                    commands.push(Command::Render);
                },
                RenderMode::Immediate => {},
            }
            commands
        }
    }

    /// The copy of the whole buffer, then a render request.
    fn flush(&self) -> (commands: Vec<Command>)
        ensures
            commands@ == flush_commands(self@.size),
    {
        proof {
            use_type_invariant(self);
        }
        let mut commands: Vec<Command> = Vec::new();
        let area = Rectangle { top_left: Point { x: 0, y: 0 }, size: self.size };
        match corners(&area) {
            Some((x1, y1, x2, y2)) => {
                commands.push(Command::CopyRect { x1, y1, x2, y2, stride: self.size.width as i32 });
            },
            None => {},
        }
        commands.push(Command::Render);
        commands
    }

    /// Tells whether `point` lies on the display.
    pub fn shows(&self, point: Point) -> (on: bool)
        ensures
            on == on_screen(point, self@.size),
    {
        point.x >= 0 && point.y >= 0 && (point.x as u32) < self.size.width && (point.y as u32)
            < self.size.height
    }

    /// Tells whether `fill_contiguous` can take `count` colours for `area`.
    pub fn accepts(&self, area: &Rectangle, count: usize) -> (ok: bool)
        ensures
            ok == self@.accepts_block(*area, count as nat),
    {
        if area.size.width == 0 || area.size.height == 0 {
            return true;
        }
        assert(area.size.width * area.size.height <= 0xFFFF_FFFF * 0xFFFF_FFFF) by (nonlinear_arith)
            requires
                area.size.width <= 0xFFFF_FFFF,
                area.size.height <= 0xFFFF_FFFF,
        ;
        let wanted: u64 = area.size.width as u64 * area.size.height as u64;
        is_addressable(area) && count <= self.buffer.len() && wanted
            <= self.buffer.len() as u64
    }

    /// Fills `area` with one colour: for a rectangle with pixels, the colour
    /// becomes the foreground colour and one fill covers the rectangle,
    /// whatever its size. An empty rectangle asks nothing of the display.
    /// The adapter stays as it is.
    pub fn fill_solid(&mut self, area: &Rectangle, color: Rgb888) -> (commands: Vec<Command>)
        requires
            addressable(*area),
        ensures
            final(self)@ == old(self)@,
            final(self)@.wf(),
            commands@ == solid_commands(*area, color),
            area.is_empty() ==> commands@.len() == 0,
            commands@.len() <= 2,
    {
        proof {
            use_type_invariant(&*self);
        }
        let mut commands: Vec<Command> = Vec::new();
        match corners(area) {
            Some((x1, y1, x2, y2)) => {
                commands.push(Command::ForegroundColor(color.into_storage()));
                commands.push(Command::RectFill { x1, y1, x2, y2 });
            },
            None => {},
        }
        commands
    }

    /// Fills `area` with a block of colours, given row by row from the
    /// rectangle's top-left pixel.
    ///
    /// For a rectangle with pixels, the colours are stored at the start of
    /// the buffer, in their order, and one copy takes them to the display.
    /// An empty rectangle changes nothing and asks nothing of the display.
    pub fn fill_contiguous(&mut self, area: &Rectangle, colors: &[Rgb888]) -> (commands: Vec<
        Command,
    >)
        requires
            old(self)@.accepts_block(*area, colors@.len()),
        ensures
            final(self)@.wf(),
            final(self)@ == (State {
                buffer: if area.is_empty() {
                    old(self)@.buffer
                } else {
                    with_block(old(self)@.buffer, stored(colors@))
                },
                ..old(self)@
            }),
            commands@ == block_commands(*area),
            commands@.len() <= 1,
            area.is_empty() ==> commands@.len() == 0 && final(self)@ == old(self)@,
            !area.is_empty() ==> final(self)@.buffer.subrange(0, colors@.len() as int) == stored(
                colors@,
            ),
    {
        proof {
            use_type_invariant(&*self);
        }
        let mut commands: Vec<Command> = Vec::new();
        match corners(area) {
            Some((x1, y1, x2, y2)) => {
                let mut i: usize = 0;
                while i < colors.len()
                    invariant
                        i <= colors@.len() <= self.buffer@.len(),
                        self.buffer@.len() == old(self)@.buffer.len(),
                        self.size == old(self).size,
                        self.strategy == old(self).strategy,
                        self.render_mode == old(self).render_mode,
                        self.direct_below == old(self).direct_below,
                        self@.wf(),
                        forall|j: int| 0 <= j < i ==> self.buffer@[j] == colors@[j].storage(),
                        forall|j: int|
                            i <= j < self.buffer@.len() ==> self.buffer@[j] == old(
                                self,
                            )@.buffer[j],
                    decreases colors@.len() - i,
                {
                    let raw: u32 = colors[i].into_storage();
                    self.buffer[i] = raw;
                    i += 1;
                }
                assert(self.buffer@ =~= with_block(old(self)@.buffer, stored(colors@)));
                proof {
                    lemma_block_read_back(old(self)@.buffer, stored(colors@));
                }
                commands.push(Command::CopyRect { x1, y1, x2, y2, stride: area.size.width as i32 });
            },
            None => {},
        }
        commands
    }

    /// Draws a batch of pixels, in the batch's order.
    ///
    /// A pixel off the display is dropped. Under a strategy that stages
    /// pixels, each other pixel's stored colour goes to its entry of the
    /// buffer, a later pixel overwriting an earlier one at the same
    /// position. `Strategy::AutoFlush` then returns a flush, or, for a batch
    /// below the adapter's `direct_below`, the pixels one by one and a
    /// render request; `Strategy::ManualFlush` returns nothing.
    /// `Strategy::Direct` leaves the buffer alone and returns the pixels one
    /// by one: for each, its colour and one pixel write.
    pub fn draw_iter(&mut self, pixels: &[Pixel]) -> (commands: Vec<Command>)
        ensures
            final(self)@.wf(),
            final(self)@ == (State { buffer: old(self)@.drawn(pixels@), ..old(self)@ }),
            commands@ == old(self)@.draw_commands(pixels@),
            forall|i: int|
                0 <= i < old(self)@.buffer.len() && untouched(old(self)@.size, pixels@, i) ==> (
                #[trigger] final(self)@.buffer[i]) == old(self)@.buffer[i],
            all_off_screen(old(self)@.size, pixels@) ==> final(self)@.buffer == old(self)@.buffer,
    {
        proof {
            use_type_invariant(&*self);
        }
        let staging: bool = self.strategy.is_buffered();
        let direct: bool = match self.strategy {
            Strategy::Direct => true,
            Strategy::AutoFlush => pixels.len() < self.direct_below,
            Strategy::ManualFlush => false,
        };
        let mut commands: Vec<Command> = Vec::new();
        let mut i: usize = 0;
        while i < pixels.len()
            invariant
                i <= pixels@.len(),
                self.size == old(self).size,
                self.strategy == old(self).strategy,
                self.render_mode == old(self).render_mode,
                self.direct_below == old(self).direct_below,
                self@.wf(),
                old(self)@.wf(),
                staging == self.strategy.buffered(),
                direct == old(self)@.sends_directly(pixels@.len()),
                self.buffer@ == if staging {
                    staged(old(self)@.buffer, self.size, pixels@.take(i as int))
                } else {
                    old(self)@.buffer
                },
                commands@ == if direct {
                    direct_commands(self.size, pixels@.take(i as int))
                } else {
                    Seq::<Command>::empty()
                },
            decreases pixels@.len() - i,
        {
            let pixel: Pixel = pixels[i];
            proof {
                assert(pixels@.take(i + 1).drop_last() =~= pixels@.take(i as int));
            }
            if self.shows(pixel.0) {
                let raw: u32 = pixel.1.into_storage();
                if staging {
                    proof {
                        lemma_index_in_range(pixel.0, self.size);
                    }
                    let at: usize = pixel.0.y as usize * self.size.width as usize
                        + pixel.0.x as usize;
                    self.buffer[at] = raw;
                }
                if direct {
                    commands.push(Command::ForegroundColor(raw));
                    commands.push(
                        Command::PixelSet {
                            x: pixel.0.x as u32,
                            y: (pixel.0.y + STATUS_BAR_OFFSET) as u32,
                        },
                    );
                }
            }
            i += 1;
        }
        assert(pixels@.take(i as int) =~= pixels@);
        proof {
            if staging {
                assert forall|i: int|
                    0 <= i < old(self)@.buffer.len() && untouched(
                        old(self)@.size,
                        pixels@,
                        i,
                    ) implies (#[trigger] self.buffer@[i]) == old(self)@.buffer[i] by {
                    lemma_staged_elsewhere(old(self)@.buffer, self.size, pixels@, i);
                }
                if all_off_screen(self.size, pixels@) {
                    lemma_staged_off_screen(old(self)@.buffer, self.size, pixels@);
                }
            }
        }
        match self.strategy {
            Strategy::AutoFlush => {
                if direct {
                    commands.push(Command::Render);
                } else {
                    commands = self.flush();
                }
            },
            _ => {},
        }
        commands
    }
}

} // verus!
