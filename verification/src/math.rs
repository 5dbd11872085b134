//! Plain geometry and colour values.

use vstd::prelude::*;

verus! {

/// A point of the plane.
#[derive(Debug, PartialEq, Eq)]
pub struct Point<T> {
    pub x: T,
    pub y: T,
}

impl<T> Point<T> {
    pub fn new(x: T, y: T) -> (point: Self)
        ensures
            point.x == x,
            point.y == y,
    {
        Point { x, y }
    }
}

/// An axis-aligned rectangle: top-left corner and extent, in pixels.
///
/// The corner may lie outside a surface, and be negative, until its owner is
/// clamped. An extent that is zero or negative covers no pixel.
#[derive(Clone, Copy, Debug, PartialEq, Eq, Structural)]
pub struct Rect {
    pub x: i32,
    pub y: i32,
    pub w: i32,
    pub h: i32,
}

impl Rect {
    pub fn new(x: i32, y: i32, w: i32, h: i32) -> (rect: Self)
        ensures
            rect == (Rect { x, y, w, h }),
    {
        Rect { x, y, w, h }
    }

    /// Whether the pixel `(px, py)` lies inside the rectangle.
    pub open spec fn covers(self, px: int, py: int) -> bool {
        &&& self.x <= px < self.x + self.w
        &&& self.y <= py < self.y + self.h
    }
}

/// A colour of four 8-bit channels.
///
/// In a pixel buffer a colour takes four bytes in the order blue, green, red,
/// alpha, each from 0 to 255. Read as one little-endian 32-bit word that is
/// `0xAARRGGBB`.
///
/// A colour to draw with is given another way: red, green and blue are each 0
/// (off) or 1 (on). Drawing multiplies them by 255, so that 1 becomes the
/// full byte, and leaves the alpha byte of the pixel as it is.
#[derive(Clone, Copy, Debug, PartialEq, Eq, Structural)]
pub struct Color {
    pub r: u8,
    pub g: u8,
    pub b: u8,
    pub a: u8,
}

impl Color {
    pub fn new(r: u8, g: u8, b: u8, a: u8) -> (color: Self)
        ensures
            color == (Color { r, g, b, a }),
    {
        Color { r, g, b, a }
    }

    /// Whether the colour can be drawn with: red, green and blue are each 0
    /// or 1, so that 255 times each fits in a byte.
    pub open spec fn drawable(self) -> bool {
        self.r <= 1 && self.g <= 1 && self.b <= 1
    }

    /// What a pixel of colour `under` holds after this colour was drawn over
    /// it: 255 times the red, green and blue of this colour, and the alpha
    /// that was there.
    pub open spec fn drawn_over(self, under: Color) -> Color
        recommends
            self.drawable(),
    {
        Color {
            r: (self.r * 255) as u8,
            g: (self.g * 255) as u8,
            b: (self.b * 255) as u8,
            a: under.a,
        }
    }

    /// Tells whether the colour can be drawn with.
    pub fn is_drawable(&self) -> (ok: bool)
        ensures
            ok == self.drawable(),
    {
        self.r <= 1 && self.g <= 1 && self.b <= 1
    }

    /// The 32-bit word `0xAARRGGBB` whose bytes are the channels of a colour
    /// as they are.
    pub open spec fn packed(self) -> u32 {
        (self.b as u32) | ((self.g as u32) << 8) | ((self.r as u32) << 16) | ((self.a as u32)
            << 24)
    }

    /// The colour whose channels are the bytes of a 32-bit word `0xAARRGGBB`
    /// as they are.
    pub open spec fn unpacked(pixel: u32) -> Color {
        Color {
            r: ((pixel >> 16) & 0xff) as u8,
            g: ((pixel >> 8) & 0xff) as u8,
            b: (pixel & 0xff) as u8,
            a: ((pixel >> 24) & 0xff) as u8,
        }
    }

    pub fn to_pixel(&self) -> (pixel: u32)
        ensures
            pixel == self.packed(),
    {
        (self.b as u32) | ((self.g as u32) << 8) | ((self.r as u32) << 16) | ((self.a as u32)
            << 24)
    }

    pub fn from_pixel(pixel: u32) -> (color: Self)
        ensures
            color == Color::unpacked(pixel),
    {
        let r: u32 = (pixel >> 16) & 0xff;
        let g: u32 = (pixel >> 8) & 0xff;
        let b: u32 = pixel & 0xff;
        let a: u32 = (pixel >> 24) & 0xff;
        assert(r < 256 && g < 256 && b < 256 && a < 256) by (bit_vector)
            requires
                r == (pixel >> 16) & 0xff,
                g == (pixel >> 8) & 0xff,
                b == pixel & 0xff,
                a == (pixel >> 24) & 0xff,
        ;
        Color { r: r as u8, g: g as u8, b: b as u8, a: a as u8 }
    }

    /// Packing a colour and unpacking the word gives the colour back.
    pub proof fn lemma_unpack_packed(color: Color)
        ensures
            Color::unpacked(color.packed()) == color,
    {
        let r: u8 = color.r;
        let g: u8 = color.g;
        let b: u8 = color.b;
        let a: u8 = color.a;
        let p: u32 = color.packed();
        assert(((p >> 16) & 0xff) == r as u32 && ((p >> 8) & 0xff) == g as u32 && (p & 0xff)
            == b as u32 && ((p >> 24) & 0xff) == a as u32) by (bit_vector)
            requires
                p == (b as u32) | ((g as u32) << 8) | ((r as u32) << 16) | ((a as u32) << 24),
        ;
    }

    /// Unpacking a word and packing the colour gives the word back.
    pub proof fn lemma_pack_unpacked(pixel: u32)
        ensures
            Color::unpacked(pixel).packed() == pixel,
    {
        let c: Color = Color::unpacked(pixel);
        let r: u8 = c.r;
        let g: u8 = c.g;
        let b: u8 = c.b;
        let a: u8 = c.a;
        assert((b as u32) | ((g as u32) << 8) | ((r as u32) << 16) | ((a as u32) << 24) == pixel)
            by (bit_vector)
            requires
                r == ((pixel >> 16) & 0xff) as u8,
                g == ((pixel >> 8) & 0xff) as u8,
                b == (pixel & 0xff) as u8,
                a == ((pixel >> 24) & 0xff) as u8,
        ;
    }
}

} // verus!
