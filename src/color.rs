use vstd::prelude::*;
use embedded_graphics::pixelcolor::raw::{RawData, RawU16};
use embedded_graphics::pixelcolor::Rgb565;

verus! {

/// The display bus takes each 16-bit color with its two bytes exchanged.
pub open spec fn swap_spec(v: u16) -> u16 {
    (v & 0x00FF) << 8 | (v & 0xFF00) >> 8
}

/// Exchanges the high and low byte of a packed color.
pub fn swap(inp: u16) -> (r: u16)
    ensures
        r == swap_spec(inp),
{
    (inp & 0x00FF) << 8 | (inp & 0xFF00) >> 8
}

/// Exchanging the bytes twice gives the value back.
pub proof fn lemma_swap_involution(v: u16)
    ensures
        swap_spec(swap_spec(v)) == v,
{
    assert((((v & 0x00FF) << 8 | (v & 0xFF00) >> 8) & 0x00FF) << 8
        | (((v & 0x00FF) << 8 | (v & 0xFF00) >> 8) & 0xFF00) >> 8 == v) by (bit_vector);
}

/// How an RGB 5-6-5 color is packed into 16 bits: red in the top five bits,
/// green in the middle six, blue in the low five; excess channel bits are dropped.
pub open spec fn rgb565_pack(r: u8, g: u8, b: u8) -> u16 {
    ((r & 31) as u16) << 11 | ((g & 63) as u16) << 5 | ((b & 31) as u16)
}

/// Relies on embedded_graphics's `Rgb565::new` and its conversion to `RawU16`:
/// the channels are masked to 5, 6 and 5 bits and packed as `rgb565_pack` says.
#[verifier::external_body]
fn rgb565_raw(r: u8, g: u8, b: u8) -> (raw: u16)
    ensures
        raw == rgb565_pack(r, g, b),
{
    RawU16::from(Rgb565::new(r, g, b)).into_inner()
}

/// A 16-bit RGB 5-6-5 color in host byte order.
#[derive(Clone, Copy, Debug, PartialEq, Eq, Structural)]
pub struct Color {
    pub raw: u16,
}

impl Color {
    /// The color with the given channels; bits beyond each channel's width are dropped.
    pub fn new(r: u8, g: u8, b: u8) -> (c: Color)
        ensures
            c.raw == rgb565_pack(r, g, b),
    {
        Color { raw: rgb565_raw(r, g, b) }
    }

    pub fn black() -> (c: Color)
        ensures
            c.raw == 0,
    {
        let c = Color::new(0, 0, 0);
        assert(rgb565_pack(0, 0, 0) == 0) by (bit_vector);
        c
    }

    pub fn white() -> (c: Color)
        ensures
            c.raw == 0xFFFF,
    {
        let c = Color::new(31, 63, 31);
        assert(rgb565_pack(31, 63, 31) == 0xFFFF) by (bit_vector);
        c
    }

    pub fn red() -> (c: Color)
        ensures
            c.raw == 0xF800,
    {
        let c = Color::new(31, 0, 0);
        assert(rgb565_pack(31, 0, 0) == 0xF800) by (bit_vector);
        c
    }

    pub fn green() -> (c: Color)
        ensures
            c.raw == 0x07E0,
    {
        let c = Color::new(0, 63, 0);
        assert(rgb565_pack(0, 63, 0) == 0x07E0) by (bit_vector);
        c
    }

    pub fn blue() -> (c: Color)
        ensures
            c.raw == 0x001F,
    {
        let c = Color::new(0, 0, 31);
        assert(rgb565_pack(0, 0, 31) == 0x001F) by (bit_vector);
        c
    }
}

} // verus!
