//! A display adapter for the VEX V5 brain screen.
//!
//! The adapter turns batches of drawing primitives (pixels, solid rectangles,
//! blocks of colours) into the commands that the brain's display understands.
//! It owns the intermediate pixel buffer, knows which render mode the screen
//! is in, and decides when staged pixels are handed over. It never touches
//! the hardware itself: every operation returns the commands to carry out,
//! in order, and the caller that owns the display carries them out.

pub mod buffer;
pub mod color;
pub mod command;
pub mod driver;
pub mod geometry;
pub mod surface;

pub use color::Rgb888;
pub use command::{Command, RenderMode, Strategy};
pub use driver::DisplayDriver;
pub use geometry::{Pixel, Point, Rectangle, Size};
