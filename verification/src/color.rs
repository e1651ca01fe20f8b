//! 24-bit RGB colours and the way the display stores them.

use embedded_graphics_core::pixelcolor::IntoStorage;
use vstd::prelude::*;

verus! {

/// A colour with eight bits for each of red, green and blue.
#[derive(Clone, Copy, Debug, PartialEq, Eq, Structural)]
pub struct Rgb888 {
    pub r: u8,
    pub g: u8,
    pub b: u8,
}

/// The word the display stores for a colour: red in bits 16 to 23, green in
/// bits 8 to 15, blue in bits 0 to 7, and nothing above.
pub open spec fn packed(r: u8, g: u8, b: u8) -> u32 {
    (r as int * 0x1_0000 + g as int * 0x100 + b as int) as u32
}

/// The red channel of a stored word.
pub open spec fn red_of(raw: u32) -> u8 {
    (raw as int / 0x1_0000 % 0x100) as u8
}

/// The green channel of a stored word.
pub open spec fn green_of(raw: u32) -> u8 {
    (raw as int / 0x100 % 0x100) as u8
}

/// The blue channel of a stored word.
pub open spec fn blue_of(raw: u32) -> u8 {
    (raw as int % 0x100) as u8
}

/// The colour that a stored word stands for.
pub open spec fn unpacked(raw: u32) -> Rgb888 {
    Rgb888 { r: red_of(raw), g: green_of(raw), b: blue_of(raw) }
}

/// Packing loses nothing: the channels read back from a packed word are the
/// channels that went in, and the word has no bit set above the 24th.
pub proof fn lemma_pack_round_trip(r: u8, g: u8, b: u8)
    ensures
        red_of(packed(r, g, b)) == r,
        green_of(packed(r, g, b)) == g,
        blue_of(packed(r, g, b)) == b,
        unpacked(packed(r, g, b)) == (Rgb888 { r, g, b }),
        packed(r, g, b) <= 0xFF_FFFF,
{
}

/// `Rgb888::new(r, g, b).into_storage()` of embedded-graphics-core.
///
/// Trusted: the result is taken to be the three channels laid side by side,
/// red uppermost, in the low 24 bits of the word. The crate shifts red by 16
/// and green by 8, ors the three together and masks with `0xFF_FFFF`.
#[verifier::external_body]
fn storage_word(r: u8, g: u8, b: u8) -> (raw: u32)
    ensures
        raw == packed(r, g, b),
{
    embedded_graphics_core::pixelcolor::Rgb888::new(r, g, b).into_storage()
}

impl Rgb888 {
    /// The word the display stores for this colour.
    pub open spec fn storage(self) -> u32 {
        packed(self.r, self.g, self.b)
    }

    /// A colour from its three channels.
    pub fn new(r: u8, g: u8, b: u8) -> (color: Self)
        ensures
            color == (Rgb888 { r, g, b }),
    {
        Rgb888 { r, g, b }
    }

    /// Packs the colour into the word the display stores.
    pub fn into_storage(self) -> (raw: u32)
        ensures
            raw == self.storage(),
            raw <= 0xFF_FFFF,
            unpacked(raw) == self,
    {
        proof {
            lemma_pack_round_trip(self.r, self.g, self.b);
        }
        storage_word(self.r, self.g, self.b)
    }
}

} // verus!
