//! The pixel buffer, the rasterizer that writes into it, and the state of the
//! surface that the buffer is presented on.

use vstd::prelude::*;
use crate::math::{Color, Point, Rect};

verus! {

/// Bytes that one pixel takes in a buffer.
pub const BYTES_PER_PIXEL: usize = 4;

/// Size in bytes of the header that describes a buffer to the platform.
pub const BITMAP_INFO_HEADER_SIZE: u32 = 40;

/// Compression tag of uncompressed pixels.
pub const BI_RGB: u32 = 0;

/// Width and height of a window's drawable area, without its decoration.
///
/// Neither is negative, and a buffer of four bytes per pixel for the area
/// is not larger than an allocation can be on this machine.
#[derive(Clone, Copy, Debug, PartialEq, Eq, Structural)]
pub struct ClientData {
    width: i32,
    height: i32,
}

/// Whether the edges of a client rectangle describe an area that
/// [`ClientData`] can hold.
pub open spec fn is_client_rect(left: int, top: int, right: int, bottom: int) -> bool {
    &&& left <= right
    &&& top <= bottom
    &&& right - left <= i32::MAX
    &&& bottom - top <= i32::MAX
    &&& (right - left) * (bottom - top) * 4 <= isize::MAX
}

impl ClientData {
    #[verifier::type_invariant]
    pub closed spec fn wf(self) -> bool {
        is_client_rect(0, 0, self.width as int, self.height as int)
    }

    pub closed spec fn width(self) -> int {
        self.width as int
    }

    pub closed spec fn height(self) -> int {
        self.height as int
    }

    /// Bytes that a buffer for this area takes.
    pub open spec fn byte_len(self) -> int {
        self.width() * self.height() * 4
    }

    pub fn get_width(&self) -> (width: i32)
        ensures
            width == self.width(),
    {
        self.width
    }

    pub fn get_height(&self) -> (height: i32)
        ensures
            height == self.height(),
    {
        self.height
    }

    /// What validity says of the accessors.
    pub proof fn lemma_wf(self)
        requires
            self.wf(),
        ensures
            0 <= self.width() <= i32::MAX,
            0 <= self.height() <= i32::MAX,
            0 <= self.byte_len() <= isize::MAX,
    {
        assert(0 <= self.width() * self.height()) by (nonlinear_arith)
            requires
                0 <= self.width(),
                0 <= self.height(),
        ;
    }
}

/// Tells whether the four edges of a client rectangle can be handed to
/// [`get_client_data`].
pub fn client_rect_fits(left: i32, top: i32, right: i32, bottom: i32) -> (ok: bool)
    ensures
        ok == is_client_rect(left as int, top as int, right as int, bottom as int),
{
    if left > right || top > bottom {
        return false;
    }
    let width: i64 = right as i64 - left as i64;
    let height: i64 = bottom as i64 - top as i64;
    if width > i32::MAX as i64 || height > i32::MAX as i64 {
        return false;
    }
    assert(0 <= width * height <= 0x3fff_ffff_0000_0001) by (nonlinear_arith)
        requires
            0 <= width <= 0x7fff_ffff,
            0 <= height <= 0x7fff_ffff,
    ;
    let bytes: u64 = (width as u64) * (height as u64) * 4;
    bytes <= isize::MAX as u64
}

/// The drawable area of a window whose client rectangle has the given edges.
pub fn get_client_data(left: i32, top: i32, right: i32, bottom: i32) -> (data: ClientData)
    requires
        is_client_rect(left as int, top as int, right as int, bottom as int),
    ensures
        data.wf(),
        data.width() == right - left,
        data.height() == bottom - top,
{
    ClientData { width: right - left, height: bottom - top }
}

/// The header that describes a pixel buffer to the platform when the buffer
/// is shown: 32 bits per pixel, uncompressed, rows stored top-down (which the
/// platform reads off a negative height).
#[derive(Clone, Copy, Debug, PartialEq, Eq, Structural)]
pub struct BitmapInfo {
    pub size: u32,
    pub width: i32,
    pub height: i32,
    pub planes: u16,
    pub bit_count: u16,
    pub compression: u32,
}

impl BitmapInfo {
    /// The header of a top-down buffer of 32 bits per pixel.
    pub open spec fn top_down(width: int, height: int) -> BitmapInfo {
        BitmapInfo {
            size: BITMAP_INFO_HEADER_SIZE,
            width: width as i32,
            height: (-height) as i32,
            planes: 1,
            bit_count: 32,
            compression: BI_RGB,
        }
    }
}

/// Where pixel `(x, y)` stands among the pixels of a buffer `width` wide,
/// rows first.
pub open spec fn pixel_index(width: int, x: int, y: int) -> int {
    y * width + x
}

/// A pixel of a buffer `width` wide and `height` high lies among its
/// `width * height` pixels.
pub proof fn lemma_pixel_index_bounds(width: int, height: int, x: int, y: int)
    requires
        0 <= x < width,
        0 <= y < height,
    ensures
        0 <= y * width <= pixel_index(width, x, y) < width * height,
{
    assert(0 <= y * width <= y * width + x < width * height) by (nonlinear_arith)
        requires
            0 <= x < width,
            0 <= y < height,
    ;
}

/// Two pixels of a buffer that stand at the same place are the same pixel.
pub proof fn lemma_pixel_index_injective(width: int, x1: int, y1: int, x2: int, y2: int)
    requires
        0 <= x1 < width,
        0 <= x2 < width,
        pixel_index(width, x1, y1) == pixel_index(width, x2, y2),
    ensures
        x1 == x2,
        y1 == y2,
{
    assert(x1 == x2 && y1 == y2) by (nonlinear_arith)
        requires
            0 <= x1 < width,
            0 <= x2 < width,
            y1 * width + x1 == y2 * width + x2,
    ;
}

/// A pixel buffer: a width, a height, and four bytes for each pixel, rows
/// first and top row first.
///
/// The bytes are always exactly `width * height * 4`: nothing can observe a
/// buffer whose declared size and memory disagree.
pub struct Win32GameBitmap {
    bitmap_info: BitmapInfo,
    memory: Vec<u8>,
}

impl View for Win32GameBitmap {
    type V = Seq<u8>;

    /// The bytes of the buffer.
    closed spec fn view(&self) -> Seq<u8> {
        self.memory@
    }
}

impl Win32GameBitmap {
    #[verifier::type_invariant]
    pub closed spec fn wf(self) -> bool {
        &&& 0 <= self.bitmap_info.width
        &&& i32::MIN < self.bitmap_info.height <= 0
        &&& self.bitmap_info == BitmapInfo::top_down(self.width(), self.height())
        &&& self.memory@.len() == self.width() * self.height() * 4
        &&& self.width() * self.height() * 4 <= isize::MAX
    }

    /// Pixels in a row.
    pub closed spec fn width(self) -> int {
        self.bitmap_info.width as int
    }

    /// Rows.
    pub closed spec fn height(self) -> int {
        -(self.bitmap_info.height as int)
    }

    /// The header that describes the buffer.
    pub closed spec fn info(self) -> BitmapInfo {
        self.bitmap_info
    }

    /// Whether `(x, y)` is a pixel of the buffer.
    pub open spec fn in_bounds(self, x: int, y: int) -> bool {
        0 <= x < self.width() && 0 <= y < self.height()
    }

    /// The index of the first of the four bytes of pixel `(x, y)`.
    pub open spec fn pixel_offset(self, x: int, y: int) -> int {
        pixel_index(self.width(), x, y) * 4
    }

    /// The colour of pixel `(x, y)`: its bytes are blue, green, red, alpha.
    pub open spec fn pixel_at(self, x: int, y: int) -> Color {
        let at = self.pixel_offset(x, y);
        Color { b: self@[at], g: self@[at + 1], r: self@[at + 2], a: self@[at + 3] }
    }

    /// Whether two buffers have the same width and height, and so as many
    /// bytes.
    pub open spec fn same_size(self, other: Win32GameBitmap) -> bool {
        &&& self.width() == other.width()
        &&& self.height() == other.height()
        &&& self@.len() == other@.len()
    }

    /// What validity says of the accessors.
    pub proof fn lemma_wf(self)
        requires
            self.wf(),
        ensures
            0 <= self.width() <= i32::MAX,
            0 <= self.height() <= i32::MAX,
            self@.len() == self.width() * self.height() * 4,
            self@.len() <= isize::MAX,
            self.info() == BitmapInfo::top_down(self.width(), self.height()),
    {
    }

    /// A buffer is its size and the colours of its pixels: two buffers of
    /// one size whose pixels agree hold the same bytes.
    pub proof fn lemma_pixels_determine_bytes(self, other: Win32GameBitmap)
        requires
            self.wf(),
            other.wf(),
            self.same_size(other),
            forall|x: int, y: int|
                self.in_bounds(x, y) ==> #[trigger] self.pixel_at(x, y) == other.pixel_at(x, y),
        ensures
            self@ == other@,
    {
        let width = self.width();
        let height = self.height();
        assert forall|i: int| 0 <= i < self@.len() implies self@[i] == other@[i] by {
            let place = i / 4;
            let x = place % width;
            let y = place / width;
            assert(width > 0) by (nonlinear_arith)
                requires
                    0 <= width,
                    0 < width * height * 4,
            ;
            vstd::arithmetic::div_mod::lemma_fundamental_div_mod(place, width);
            vstd::arithmetic::div_mod::lemma_mod_pos_bound(place, width);
            vstd::arithmetic::div_mod::lemma_div_pos_is_pos(place, width);
            assert(y < height) by (nonlinear_arith)
                requires
                    0 <= x,
                    0 < width,
                    place == width * y + x,
                    place < width * height,
            ;
            assert(pixel_index(width, x, y) == place) by (nonlinear_arith)
                requires
                    place == width * y + x,
            ;
            assert(self.pixel_at(x, y) == other.pixel_at(x, y));
        }
    }

    /// A buffer for a drawable area, every byte zero.
    pub fn new(extent: ClientData) -> (buffer: Self)
        ensures
            buffer.wf(),
            buffer.width() == extent.width(),
            buffer.height() == extent.height(),
            buffer@.len() == extent.width() * extent.height() * 4,
            forall|i: int| 0 <= i < buffer@.len() ==> buffer@[i] == 0u8,
    {
        proof {
            use_type_invariant(&extent);
            extent.lemma_wf();
        }
        let width: usize = extent.width as usize;
        let height: usize = extent.height as usize;
        assert(width * height <= width * height * 4) by (nonlinear_arith)
            requires
                0 <= width,
                0 <= height,
        ;
        let size: usize = width * height * BYTES_PER_PIXEL;
        let memory: Vec<u8> = vec![0u8; size];
        Win32GameBitmap {
            bitmap_info: BitmapInfo {
                size: BITMAP_INFO_HEADER_SIZE,
                width: extent.width,
                height: -extent.height,
                planes: 1,
                bit_count: 32,
                compression: BI_RGB,
            },
            memory,
        }
    }

    /// Pixels in a row.
    pub fn get_width(&self) -> (width: u32)
        ensures
            width == self.width(),
    {
        proof {
            use_type_invariant(self);
        }
        self.bitmap_info.width as u32
    }

    /// Rows.
    pub fn get_height(&self) -> (height: u32)
        ensures
            height == self.height(),
    {
        proof {
            use_type_invariant(self);
        }
        (-self.bitmap_info.height) as u32
    }

    /// The header to hand to the platform with the bytes.
    pub fn bitmap_info(&self) -> (info: &BitmapInfo)
        ensures
            *info == self.info(),
    {
        &self.bitmap_info
    }

    /// The bytes of the buffer, to read.
    pub fn memory(&self) -> (bytes: &Vec<u8>)
        ensures
            bytes@ == self@,
    {
        &self.memory
    }

    /// Writes the four bytes of one pixel that the caller has shown to lie in
    /// the buffer.
    fn write_pixel(&mut self, x: usize, y: usize, color: &Color)
        requires
            old(self).in_bounds(x as int, y as int),
        ensures
            final(self).same_size(*old(self)),
            final(self).pixel_at(x as int, y as int) == *color,
            forall|px: int, py: int|
                #![trigger final(self).pixel_at(px, py)]
                old(self).in_bounds(px, py) && !(px == x && py == y)
                    ==> final(self).pixel_at(px, py) == old(self).pixel_at(px, py),
    {
        proof {
            use_type_invariant(&*self);
            lemma_pixel_index_bounds(self.width(), self.height(), x as int, y as int);
        }
        let width: usize = self.bitmap_info.width as usize;
        let at: usize = (y * width + x) * BYTES_PER_PIXEL;
        self.memory[at] = color.b;
        self.memory[at + 1] = color.g;
        self.memory[at + 2] = color.r;
        self.memory[at + 3] = color.a;
        proof {
            let width = self.width();
            assert forall|px: int, py: int|
                #![trigger self.pixel_at(px, py)]
                old(self).in_bounds(px, py) && !(px == x && py == y) implies self.pixel_at(px, py)
                == old(self).pixel_at(px, py) by {
                lemma_pixel_index_bounds(width, self.height(), px, py);
                if pixel_index(width, px, py) == pixel_index(width, x as int, y as int) {
                    lemma_pixel_index_injective(width, px, py, x as int, y as int);
                }
            }
        }
    }

    /// Writes the blue, green and red byte of one pixel that the caller has
    /// shown to lie in the buffer, and leaves its alpha byte as it is.
    fn paint_pixel(&mut self, x: usize, y: usize, blue: u8, green: u8, red: u8)
        requires
            old(self).in_bounds(x as int, y as int),
        ensures
            final(self).same_size(*old(self)),
            final(self).pixel_at(x as int, y as int) == (Color {
                r: red,
                g: green,
                b: blue,
                a: old(self).pixel_at(x as int, y as int).a,
            }),
            forall|px: int, py: int|
                #![trigger final(self).pixel_at(px, py)]
                old(self).in_bounds(px, py) && !(px == x && py == y)
                    ==> final(self).pixel_at(px, py) == old(self).pixel_at(px, py),
    {
        proof {
            use_type_invariant(&*self);
            lemma_pixel_index_bounds(self.width(), self.height(), x as int, y as int);
        }
        let width: usize = self.bitmap_info.width as usize;
        let at: usize = (y * width + x) * BYTES_PER_PIXEL;
        self.memory[at] = blue;
        self.memory[at + 1] = green;
        self.memory[at + 2] = red;
        proof {
            let width = self.width();
            assert forall|px: int, py: int|
                #![trigger self.pixel_at(px, py)]
                old(self).in_bounds(px, py) && !(px == x && py == y) implies self.pixel_at(px, py)
                == old(self).pixel_at(px, py) by {
                lemma_pixel_index_bounds(width, self.height(), px, py);
                if pixel_index(width, px, py) == pixel_index(width, x as int, y as int) {
                    lemma_pixel_index_injective(width, px, py, x as int, y as int);
                }
            }
        }
    }

    /// Sets the four bytes of pixel `(x, y)` to the channels of a colour as
    /// they are. A place outside the buffer is left alone: nothing is
    /// written.
    pub fn set_pixel(&mut self, x: i32, y: i32, color: &Color)
        ensures
            final(self).same_size(*old(self)),
            !old(self).in_bounds(x as int, y as int) ==> final(self)@ == old(self)@,
            forall|px: int, py: int|
                #![trigger final(self).pixel_at(px, py)]
                old(self).in_bounds(px, py) ==> final(self).pixel_at(px, py) == (if px == x && py
                    == y {
                    *color
                } else {
                    old(self).pixel_at(px, py)
                }),
    {
        proof {
            use_type_invariant(&*self);
        }
        if 0 <= x && x < self.bitmap_info.width && 0 <= y && y < -self.bitmap_info.height {
            self.write_pixel(x as usize, y as usize, color);
        }
    }

    /// What the pixel at a point holds, its four bytes as they are, if the
    /// point lies in the buffer.
    pub fn pixel(&self, at: Point<u32>) -> (color: Option<Color>)
        ensures
            color == (if self.in_bounds(at.x as int, at.y as int) {
                Some(self.pixel_at(at.x as int, at.y as int))
            } else {
                None
            }),
    {
        proof {
            use_type_invariant(self);
        }
        let width: u32 = self.bitmap_info.width as u32;
        let height: u32 = (-self.bitmap_info.height) as u32;
        if at.x < width && at.y < height {
            proof {
                lemma_pixel_index_bounds(self.width(), self.height(), at.x as int, at.y as int);
            }
            let row: usize = at.y as usize * width as usize;
            let first: usize = (row + at.x as usize) * BYTES_PER_PIXEL;
            Some(
                Color {
                    r: self.memory[first + 2],
                    g: self.memory[first + 1],
                    b: self.memory[first],
                    a: self.memory[first + 3],
                },
            )
        } else {
            None
        }
    }

    /// Sets every pixel to one colour.
    fn fill(&mut self, color: &Color)
        ensures
            final(self).same_size(*old(self)),
            forall|x: int, y: int|
                #![trigger final(self).pixel_at(x, y)]
                old(self).in_bounds(x, y) ==> final(self).pixel_at(x, y) == *color,
    {
        proof {
            use_type_invariant(&*self);
        }
        let count: usize = self.memory.len() / BYTES_PER_PIXEL;
        let mut done: usize = 0;
        while done < count
            invariant
                self.wf(),
                self.same_size(*old(self)),
                count * 4 == self@.len(),
                done <= count,
                forall|k: int| 0 <= k < done ==> #[trigger] holds_color(self@, k, *color),
            decreases count - done,
        {
            let ghost before: Seq<u8> = self@;
            let at: usize = done * BYTES_PER_PIXEL;
            self.memory[at] = color.b;
            self.memory[at + 1] = color.g;
            self.memory[at + 2] = color.r;
            self.memory[at + 3] = color.a;
            proof {
                assert forall|k: int| 0 <= k < done + 1 implies #[trigger] holds_color(
                    self@,
                    k,
                    *color,
                ) by {
                    if k < done {
                        assert(holds_color(before, k, *color));
                    }
                }
            }
            done = done + 1;
        }
        proof {
            assert forall|x: int, y: int|
                #![trigger self.pixel_at(x, y)]
                old(self).in_bounds(x, y) implies self.pixel_at(x, y) == *color by {
                lemma_pixel_index_bounds(self.width(), self.height(), x, y);
                assert(holds_color(self@, pixel_index(self.width(), x, y), *color));
            }
        }
    }

    /// Draws a colour over the pixels of the columns `left..right` of the
    /// rows `top..bottom`.
    fn fill_region(&mut self, left: usize, right: usize, top: usize, bottom: usize, color: &Color)
        requires
            color.drawable(),
            left <= right <= old(self).width(),
            top <= bottom <= old(self).height(),
        ensures
            final(self).same_size(*old(self)),
            forall|x: int, y: int|
                #![trigger final(self).pixel_at(x, y)]
                old(self).in_bounds(x, y) ==> final(self).pixel_at(x, y) == (if left <= x < right
                    && top <= y < bottom {
                    color.drawn_over(old(self).pixel_at(x, y))
                } else {
                    old(self).pixel_at(x, y)
                }),
    {
        let blue: u8 = color.b * 255;
        let green: u8 = color.g * 255;
        let red: u8 = color.r * 255;
        let mut y: usize = top;
        while y < bottom
            invariant
                color.drawable(),
                blue == color.b * 255,
                green == color.g * 255,
                red == color.r * 255,
                left <= right <= self.width(),
                top <= y <= bottom <= self.height(),
                self.same_size(*old(self)),
                forall|px: int, py: int|
                    #![trigger self.pixel_at(px, py)]
                    old(self).in_bounds(px, py) ==> self.pixel_at(px, py) == (if left <= px < right
                        && top <= py < y {
                        color.drawn_over(old(self).pixel_at(px, py))
                    } else {
                        old(self).pixel_at(px, py)
                    }),
            decreases bottom - y,
        {
            let mut x: usize = left;
            while x < right
                invariant
                    color.drawable(),
                    blue == color.b * 255,
                    green == color.g * 255,
                    red == color.r * 255,
                    left <= x <= right <= self.width(),
                    top <= y < bottom <= self.height(),
                    self.same_size(*old(self)),
                    forall|px: int, py: int|
                        #![trigger self.pixel_at(px, py)]
                        old(self).in_bounds(px, py) ==> self.pixel_at(px, py) == (if left <= px
                            < right && (top <= py < y || (py == y && px < x)) {
                            color.drawn_over(old(self).pixel_at(px, py))
                        } else {
                            old(self).pixel_at(px, py)
                        }),
                decreases right - x,
            {
                self.paint_pixel(x, y, blue, green, red);
                x = x + 1;
            }
            y = y + 1;
        }
    }
}

/// Whether the four bytes of the `k`-th pixel of a buffer hold a colour.
spec fn holds_color(bytes: Seq<u8>, k: int, color: Color) -> bool {
    &&& bytes[4 * k] == color.b
    &&& bytes[4 * k + 1] == color.g
    &&& bytes[4 * k + 2] == color.r
    &&& bytes[4 * k + 3] == color.a
}

/// What the platform can tell a window between two frames.
#[derive(Clone, Copy, Debug, PartialEq, Eq, Structural)]
pub enum WindowMessages {
    WindowClosed,
}

/// Where the frame loop stands.
///
/// It starts `Running`. A close message makes it `Closing`, and releasing the
/// surface makes it `Stopped`, where it stays.
#[derive(Clone, Copy, Debug, PartialEq, Eq, Structural)]
pub enum LoopState {
    Running,
    Closing,
    Stopped,
}

/// Code of the message by which the platform asks a window to close.
pub const WM_CLOSE: u32 = 0x0010;

/// What a message code from the platform means to the frame loop: the code
/// that asks the window to close is a close message, every other code is
/// nothing to the loop.
pub fn window_message(code: u32) -> (message: Option<WindowMessages>)
    ensures
        message == (if code == WM_CLOSE {
            Some(WindowMessages::WindowClosed)
        } else {
            None
        }),
{
    if code == WM_CLOSE {
        Some(WindowMessages::WindowClosed)
    } else {
        None
    }
}

impl LoopState {
    /// The state after a message from the platform: a close message makes a
    /// running loop close, and nothing else changes anything.
    pub open spec fn after(self, message: Option<WindowMessages>) -> LoopState {
        if self == LoopState::Running && message == Some(WindowMessages::WindowClosed) {
            LoopState::Closing
        } else {
            self
        }
    }
}

/// Whether drawing a rectangle, clipped to a surface `clip_width` wide,
/// paints pixel `(x, y)` of a buffer that holds that pixel.
pub open spec fn paints(rect: Rect, clip_width: int, x: int, y: int) -> bool {
    rect.covers(x, y) && x < clip_width
}

/// Something that draws into a pixel buffer, clipped to a surface.
pub trait Win32Drawable {
    /// Width of the surface that drawing is clipped to.
    spec fn clip_width(&self) -> int;

    /// Draws a colour over every pixel of the buffer that lies in the
    /// rectangle and left of the surface's right edge: the blue, green and
    /// red byte of such a pixel become 255 times the colour's blue, green
    /// and red, and its alpha byte stays. Every other pixel keeps what it
    /// holds, and no byte outside the buffer is touched.
    ///
    /// The colour's red, green and blue are each 0 or 1: 255 times a larger
    /// one does not fit in a byte.
    fn draw_rectangle(&self, color: &Color, rect: &Rect, buffer: &mut Win32GameBitmap)
        requires
            color.drawable(),
        ensures
            final(buffer).same_size(*old(buffer)),
            forall|x: int, y: int|
                #![trigger final(buffer).pixel_at(x, y)]
                old(buffer).in_bounds(x, y) ==> final(buffer).pixel_at(x, y) == (if paints(
                    *rect,
                    self.clip_width(),
                    x,
                    y,
                ) {
                    color.drawn_over(old(buffer).pixel_at(x, y))
                } else {
                    old(buffer).pixel_at(x, y)
                }),
            (forall|x: int, y: int|
                #![trigger paints(*rect, self.clip_width(), x, y)]
                old(buffer).in_bounds(x, y) ==> !paints(*rect, self.clip_width(), x, y))
                ==> final(buffer)@ == old(buffer)@,
    ;
}

/// The state of the window that frames are presented on: where the frame
/// loop stands, the size of the drawable area when it was last asked for, and
/// whether the window had the input focus when that was last asked.
#[derive(Clone, Copy, Debug, PartialEq, Eq, Structural)]
pub struct Win32Engine {
    state: LoopState,
    screen_data: ClientData,
    focused: bool,
}

impl Win32Engine {
    pub closed spec fn state(self) -> LoopState {
        self.state
    }

    /// The size of the drawable area when it was last asked for.
    pub closed spec fn screen_data(self) -> ClientData {
        self.screen_data
    }

    pub closed spec fn focused(self) -> bool {
        self.focused
    }

    /// Whether presenting on a drawable area of size `current` has to resize
    /// the buffer first: exactly when the size differs from the last one.
    pub open spec fn must_resize(self, current: ClientData) -> bool {
        self.screen_data().width() != current.width() || self.screen_data().height()
            != current.height()
    }

    /// The engine after it presented on a drawable area of size `current`.
    pub closed spec fn presented(self, current: ClientData) -> Win32Engine {
        Win32Engine { screen_data: current, ..self }
    }

    /// The engine of a window that was just opened.
    pub fn new(screen_data: ClientData) -> (engine: Self)
        ensures
            engine.state() == LoopState::Running,
            engine.screen_data() == screen_data,
            !engine.focused(),
    {
        Win32Engine { state: LoopState::Running, screen_data, focused: false }
    }

    /// Takes what the platform reported since the last frame.
    pub fn handle_events(&mut self, message: Option<WindowMessages>)
        ensures
            final(self).state() == old(self).state().after(message),
            final(self).screen_data() == old(self).screen_data(),
            final(self).focused() == old(self).focused(),
    {
        let closed: bool = match message {
            Some(WindowMessages::WindowClosed) => true,
            None => false,
        };
        assert(closed == (message == Some(WindowMessages::WindowClosed))) by {
            assert(message is Some ==> message->0 == WindowMessages::WindowClosed);
        }
        if closed && self.is_running() {
            self.state = LoopState::Closing;
        }
    }

    pub fn is_running(&self) -> (running: bool)
        ensures
            running == (self.state() == LoopState::Running),
    {
        match self.state {
            LoopState::Running => true,
            _ => false,
        }
    }

    pub fn get_state(&self) -> (state: LoopState)
        ensures
            state == self.state(),
    {
        self.state
    }

    pub fn get_width(&self) -> (width: u32)
        ensures
            width == self.screen_data().width(),
    {
        proof {
            use_type_invariant(&self.screen_data);
        }
        self.screen_data.width as u32
    }

    pub fn get_height(&self) -> (height: u32)
        ensures
            height == self.screen_data().height(),
    {
        proof {
            use_type_invariant(&self.screen_data);
        }
        self.screen_data.height as u32
    }

    /// Records whether the window has the input focus.
    pub fn set_focus(&mut self, focused: bool)
        ensures
            final(self).focused() == focused,
            final(self).state() == old(self).state(),
            final(self).screen_data() == old(self).screen_data(),
    {
        self.focused = focused;
    }

    /// Whether the window had the input focus when that was last recorded.
    pub fn check_focus(&self) -> (focused: bool)
        ensures
            focused == self.focused(),
    {
        self.focused
    }

    /// Ends the loop for good, once the surface has been given back.
    pub fn release(&mut self)
        ensures
            final(self).state() == LoopState::Stopped,
            final(self).screen_data() == old(self).screen_data(),
            final(self).focused() == old(self).focused(),
    {
        self.state = LoopState::Stopped;
    }

    /// Replaces the buffer by one for a drawable area of size `extent`. The
    /// old pixels are gone: every byte of the new buffer is zero.
    pub fn resize_buffer(&self, extent: ClientData, buffer: &mut Win32GameBitmap)
        ensures
            final(buffer).width() == extent.width(),
            final(buffer).height() == extent.height(),
            final(buffer)@.len() == extent.width() * extent.height() * 4,
            forall|i: int| 0 <= i < final(buffer)@.len() ==> final(buffer)@[i] == 0u8,
    {
        *buffer = Win32GameBitmap::new(extent);
    }

    /// Sets every pixel of the buffer to the colour that the word
    /// `0xAARRGGBB` stands for.
    pub fn clear_screen(&self, color: u32, buffer: &mut Win32GameBitmap)
        ensures
            final(buffer).same_size(*old(buffer)),
            forall|x: int, y: int|
                #![trigger final(buffer).pixel_at(x, y)]
                old(buffer).in_bounds(x, y) ==> final(buffer).pixel_at(x, y) == Color::unpacked(
                    color,
                ),
    {
        let fill: Color = Color::from_pixel(color);
        buffer.fill(&fill);
    }

    /// Gets the buffer ready to be shown on a drawable area of size
    /// `current`, and tells whether it had to be resized for that.
    ///
    /// The buffer is resized exactly when `current` differs from the size
    /// that the engine saw last; the engine then remembers `current`. A
    /// resized buffer is all zero and has to be drawn again before it is
    /// shown. Otherwise the buffer is not touched.
    pub fn render_buffer_to_screen(
        &mut self,
        current: ClientData,
        buffer: &mut Win32GameBitmap,
    ) -> (resized: bool)
        ensures
            resized == old(self).must_resize(current),
            *final(self) == old(self).presented(current),
            final(self).screen_data() == current,
            final(self).state() == old(self).state(),
            final(self).focused() == old(self).focused(),
            !resized ==> *final(buffer) == *old(buffer),
            resized ==> {
                &&& final(buffer).width() == current.width()
                &&& final(buffer).height() == current.height()
                &&& final(buffer)@.len() == current.width() * current.height() * 4
                &&& forall|i: int| 0 <= i < final(buffer)@.len() ==> final(buffer)@[i] == 0u8
            },
    {
        if self.screen_data.width != current.width || self.screen_data.height != current.height {
            self.resize_buffer(current, buffer);
            self.screen_data = current;
            true
        } else {
            false
        }
    }

    /// Presenting changes nothing of the engine but the size that it saw
    /// last.
    pub proof fn lemma_presented(self, current: ClientData)
        ensures
            self.presented(current).screen_data() == current,
            self.presented(current).state() == self.state(),
            self.presented(current).focused() == self.focused(),
    {
    }

    /// Showing two frames in a row on a drawable area that kept its size
    /// resizes the buffer at most once: the second time the buffer is left
    /// alone, and the engine stays as it is.
    pub proof fn lemma_present_again(self, extent: ClientData)
        ensures
            !self.presented(extent).must_resize(extent),
            self.presented(extent).presented(extent) == self.presented(extent),
    {
    }
}

impl Win32Drawable for Win32Engine {
    /// Drawing is clipped to the width that the engine saw last.
    open spec fn clip_width(&self) -> int {
        self.screen_data().width()
    }

    fn draw_rectangle(&self, color: &Color, rect: &Rect, buffer: &mut Win32GameBitmap) {
        proof {
            use_type_invariant(&*buffer);
            use_type_invariant(&self.screen_data);
        }
        let width: i64 = buffer.bitmap_info.width as i64;
        let height: i64 = -(buffer.bitmap_info.height as i64);
        let clip: i64 = self.screen_data.width as i64;
        let limit: i64 = if clip < width {
            clip
        } else {
            width
        };
        let left: i64 = if rect.x > 0 {
            rect.x as i64
        } else {
            0
        };
        let top: i64 = if rect.y > 0 {
            rect.y as i64
        } else {
            0
        };
        let right: i64 = if rect.x as i64 + rect.w as i64 > limit {
            limit
        } else {
            rect.x as i64 + rect.w as i64
        };
        let bottom: i64 = if rect.y as i64 + rect.h as i64 > height {
            height
        } else {
            rect.y as i64 + rect.h as i64
        };
        if left < right && top < bottom {
            assert(buffer.in_bounds(left as int, top as int));
            assert(paints(*rect, self.clip_width(), left as int, top as int));
            buffer.fill_region(left as usize, right as usize, top as usize, bottom as usize, color);
        }
    }
}

/// Controllers that the platform can have connected at once.
pub const XUSER_MAX_COUNT: usize = 4;

/// Bit of a controller's buttons that is set while the pad points up.
pub const XINPUT_GAMEPAD_DPAD_UP: u16 = 0x0001;

/// Bit of a controller's buttons that is set while the pad points down.
pub const XINPUT_GAMEPAD_DPAD_DOWN: u16 = 0x0002;

/// Bit of a controller's buttons that is set while the pad points left.
pub const XINPUT_GAMEPAD_DPAD_LEFT: u16 = 0x0004;

/// Bit of a controller's buttons that is set while the pad points right.
pub const XINPUT_GAMEPAD_DPAD_RIGHT: u16 = 0x0008;

/// What the platform answered when it was asked about the eight keys that
/// steer: the letters A, D, W, S and the four arrows. A key counts as held
/// when the answer is not zero.
#[derive(Clone, Copy, Debug, PartialEq, Eq, Structural)]
pub struct KeyboardState {
    pub a: i16,
    pub d: i16,
    pub w: i16,
    pub s: i16,
    pub left: i16,
    pub right: i16,
    pub up: i16,
    pub down: i16,
}

/// The directions that the player asks for: what the keyboard said, the
/// controller that was found, if any, and what its buttons said.
#[derive(Clone, Copy, Debug, PartialEq, Eq, Structural)]
pub struct Win32Input {
    keys: KeyboardState,
    game_pad: Option<u16>,
    game_pad_id: i8,
}

impl Win32Input {
    pub closed spec fn keys(self) -> KeyboardState {
        self.keys
    }

    /// The buttons of the controller, if it answered when it was last asked.
    pub closed spec fn game_pad(self) -> Option<u16> {
        self.game_pad
    }

    /// The slot of the controller in use, or -1 while none has been found.
    pub closed spec fn game_pad_id(self) -> int {
        self.game_pad_id as int
    }

    /// Whether a controller is in use, answered, and has one of the bits of
    /// `mask` set.
    pub open spec fn pad_holds(self, mask: u16) -> bool {
        &&& self.game_pad_id() != -1
        &&& self.game_pad() matches Some(buttons)
        &&& buttons & mask != 0
    }

    pub open spec fn left_held(self) -> bool {
        self.keys().a != 0 || self.keys().left != 0 || self.pad_holds(XINPUT_GAMEPAD_DPAD_LEFT)
    }

    pub open spec fn right_held(self) -> bool {
        self.keys().d != 0 || self.keys().right != 0 || self.pad_holds(
            XINPUT_GAMEPAD_DPAD_RIGHT,
        )
    }

    pub open spec fn up_held(self) -> bool {
        self.keys().w != 0 || self.keys().up != 0 || self.pad_holds(XINPUT_GAMEPAD_DPAD_UP)
    }

    pub open spec fn down_held(self) -> bool {
        self.keys().s != 0 || self.keys().down != 0 || self.pad_holds(XINPUT_GAMEPAD_DPAD_DOWN)
    }

    /// No key held, no controller found.
    pub fn new() -> (input: Self)
        ensures
            input.keys() == (KeyboardState {
                a: 0,
                d: 0,
                w: 0,
                s: 0,
                left: 0,
                right: 0,
                up: 0,
                down: 0,
            }),
            input.game_pad() == None::<u16>,
            input.game_pad_id() == -1,
    {
        Win32Input {
            keys: KeyboardState { a: 0, d: 0, w: 0, s: 0, left: 0, right: 0, up: 0, down: 0 },
            game_pad: None,
            game_pad_id: -1,
        }
    }

    /// The slot of the controller in use, or -1 while none has been found.
    pub fn get_game_pad_id(&self) -> (id: i8)
        ensures
            id == self.game_pad_id(),
    {
        self.game_pad_id
    }

    /// Looks for a controller among the slots that answered, unless one is
    /// in use already: once found, a controller is kept. Of several slots
    /// that answered the last one is taken.
    pub fn get_controller(&mut self, answered: &[bool; 4])
        ensures
            final(self).keys() == old(self).keys(),
            final(self).game_pad() == old(self).game_pad(),
            old(self).game_pad_id() != -1
                ==> final(self).game_pad_id() == old(self).game_pad_id(),
            old(self).game_pad_id() == -1 ==> {
                let id = final(self).game_pad_id();
                &&& -1 <= id < XUSER_MAX_COUNT
                &&& id != -1 ==> answered[id]
                &&& forall|slot: int| id < slot < XUSER_MAX_COUNT ==> !answered[slot]
            },
    {
        if self.game_pad_id == -1 {
            let mut slot: usize = 0;
            while slot < XUSER_MAX_COUNT
                invariant
                    slot <= XUSER_MAX_COUNT,
                    self.keys() == old(self).keys(),
                    self.game_pad() == old(self).game_pad(),
                    -1 <= self.game_pad_id() < slot,
                    self.game_pad_id() != -1 ==> answered[self.game_pad_id()],
                    forall|other: int| self.game_pad_id() < other < slot ==> !answered[other],
                decreases XUSER_MAX_COUNT - slot,
            {
                if answered[slot] {
                    self.game_pad_id = slot as i8;
                }
                slot = slot + 1;
            }
        }
    }

    /// Takes what the keyboard said and, where the controller in use
    /// answered, what its buttons said.
    pub fn record(&mut self, keys: KeyboardState, game_pad: Option<u16>)
        ensures
            final(self).keys() == keys,
            final(self).game_pad() == game_pad,
            final(self).game_pad_id() == old(self).game_pad_id(),
    {
        self.keys = keys;
        self.game_pad = game_pad;
    }

    /// Whether the controller in use answered and has a bit of `mask` set.
    fn pad(&self, mask: u16) -> (held: bool)
        ensures
            held == self.pad_holds(mask),
    {
        match self.game_pad {
            Some(buttons) => self.game_pad_id != -1 && (buttons & mask) != 0,
            None => false,
        }
    }

    /// Whether the player asks to go left: by the key A, by the left arrow,
    /// or by the pad of the controller.
    pub fn left(&self) -> (held: bool)
        ensures
            held == self.left_held(),
    {
        self.keys.a != 0 || self.keys.left != 0 || self.pad(XINPUT_GAMEPAD_DPAD_LEFT)
    }

    /// Whether the player asks to go right: by the key D, by the right
    /// arrow, or by the pad of the controller.
    pub fn right(&self) -> (held: bool)
        ensures
            held == self.right_held(),
    {
        self.keys.d != 0 || self.keys.right != 0 || self.pad(XINPUT_GAMEPAD_DPAD_RIGHT)
    }

    /// Whether the player asks to go up: by the key W, by the up arrow, or
    /// by the pad of the controller.
    pub fn up(&self) -> (held: bool)
        ensures
            held == self.up_held(),
    {
        self.keys.w != 0 || self.keys.up != 0 || self.pad(XINPUT_GAMEPAD_DPAD_UP)
    }

    /// Whether the player asks to go down: by the key S, by the down arrow,
    /// or by the pad of the controller.
    pub fn down(&self) -> (held: bool)
        ensures
            held == self.down_held(),
    {
        self.keys.s != 0 || self.keys.down != 0 || self.pad(XINPUT_GAMEPAD_DPAD_DOWN)
    }
}

} // verus!
