//! The pixel buffer that a frame is composed into before it is sent to the panel.

use embedded_graphics::framebuffer::Framebuffer;
use embedded_graphics::geometry::{Dimensions, Point};
use embedded_graphics::image::{Image, ImageRaw, ImageRawLE};
use embedded_graphics::mono_font::ascii::FONT_9X18_BOLD;
use embedded_graphics::mono_font::MonoTextStyle;
use embedded_graphics::pixelcolor::raw::{BigEndian, RawU16};
use embedded_graphics::pixelcolor::Rgb565;
use embedded_graphics::primitives::{Primitive, PrimitiveStyle};
use embedded_graphics::text::{Alignment, Baseline, Text, TextStyleBuilder};
use embedded_graphics::Drawable;
use crate::assets::{Label, RawImage};
use vstd::prelude::*;
use vstd::string::StrSliceExecFns;

verus! {

/// Width of the panel and of every frame, in pixels.
pub const WIDTH: usize = 160;

/// Height of the panel and of every frame, in pixels.
pub const HEIGHT: usize = 80;

/// Number of bytes in a frame: two per pixel.
pub const FRAME_BYTES: usize = 25600;

/// Whether `(x, y)` names a pixel of the frame.
pub open spec fn in_frame(x: int, y: int) -> bool {
    0 <= x < 160 && 0 <= y < 80
}

/// Where the high byte of pixel `(x, y)` lies in the frame bytes.
pub open spec fn byte_index(x: int, y: int) -> int {
    2 * (y * 160 + x)
}

/// The colour stored at `(x, y)` in the frame bytes `data`: high byte first.
pub open spec fn pixel_of(data: Seq<u8>, x: int, y: int) -> u16 {
    (data[byte_index(x, y)] as int * 256 + data[byte_index(x, y) + 1] as int) as u16
}


/// Column of the pixel that byte `i` of a frame belongs to.
pub open spec fn byte_x(i: int) -> int {
    (i / 2) % 160
}

/// Row of the pixel that byte `i` of a frame belongs to.
pub open spec fn byte_y(i: int) -> int {
    (i / 2) / 160
}

/// The byte that stores `color` at position `i` of a frame: the high byte at
/// even positions, the low byte at odd ones.
pub open spec fn color_byte(color: u16, i: int) -> u8 {
    if i % 2 == 0 {
        (color / 256) as u8
    } else {
        (color % 256) as u8
    }
}

/// How many pixel rows and columns of a stroke of width `stroke`, centred on
/// the frame's outline, fall inside the frame.
pub open spec fn border_depth(stroke: int) -> int {
    (stroke + 1) / 2
}

/// Whether pixel `(x, y)` lies on the visible part of the frame's border.
pub open spec fn on_border(x: int, y: int, stroke: int) -> bool {
    let t = border_depth(stroke);
    x < t || y < t || x >= 160 - t || y >= 80 - t
}

/// The frame `old` after a border of width `stroke` was stroked in `color`.
pub open spec fn with_border(old: Seq<u8>, color: u16, stroke: int) -> Seq<u8> {
    Seq::new(
        25600,
        |i: int|
            if on_border(byte_x(i), byte_y(i), stroke) {
                color_byte(color, i)
            } else {
                old[i]
            },
    )
}

/// Bytes in one row of a raw image.
pub const IMAGE_ROW_BYTES: usize = 128;

/// Number of complete rows in the raw image bytes `image`.
pub open spec fn image_rows(image: Seq<u8>) -> int {
    image.len() as int / 128
}

/// Leftmost column of an image centred on column `cx`.
pub open spec fn image_left(cx: int) -> int {
    cx - 31
}

/// Topmost row of an image of `rows` rows centred on row `cy`.
pub open spec fn image_top(cy: int, rows: int) -> int {
    cy - (rows - 1) / 2
}

/// Whether `(x, y)` lies in the extent of an image of `rows` rows centred on
/// `(cx, cy)`.
pub open spec fn in_image(x: int, y: int, cx: int, cy: int, rows: int) -> bool {
    &&& rows > 0
    &&& image_left(cx) <= x < image_left(cx) + 64
    &&& image_top(cy, rows) <= y < image_top(cy, rows) + rows
}

/// The frame byte at position `i` of the pixel `(x, y)` that the image
/// covers: the image stores the low byte first, the frame the high byte.
pub open spec fn image_byte(image: Seq<u8>, x: int, y: int, cx: int, cy: int, i: int) -> u8 {
    let k = (y - image_top(cy, image_rows(image))) * 64 + (x - image_left(cx));
    if i % 2 == 0 {
        image[2 * k + 1]
    } else {
        image[2 * k]
    }
}

/// The frame `old` after the raw image `image` was drawn centred on
/// `(cx, cy)`; what falls outside the frame is dropped.
pub open spec fn with_image(old: Seq<u8>, image: Seq<u8>, cx: int, cy: int) -> Seq<u8> {
    Seq::new(
        25600,
        |i: int|
            if in_image(byte_x(i), byte_y(i), cx, cy, image_rows(image)) {
                image_byte(image, byte_x(i), byte_y(i), cx, cy, i)
            } else {
                old[i]
            },
    )
}

/// Whether the label font sets the pixel in column `col` and row `row` of the
/// box of a one-line `text`, counted from the box's top left corner. The font
/// rasteriser decides this; the library only names it.
pub uninterp spec fn glyph_ink(text: Seq<char>, col: int, row: int) -> bool;

/// Leftmost column of the box of a line of `chars` characters centred on
/// column `ax`.
pub open spec fn text_left(ax: int, chars: int) -> int {
    if chars <= 0 {
        ax
    } else {
        ax - (9 * chars - 1) / 2
    }
}

/// Topmost row of the box of a line centred on row `ay`.
pub open spec fn text_top(ay: int) -> int {
    ay - 8
}

/// Whether `(x, y)` lies in the box of a line of `chars` characters centred on
/// `(ax, ay)`.
pub open spec fn in_text_box(x: int, y: int, ax: int, ay: int, chars: int) -> bool {
    &&& text_left(ax, chars) <= x < text_left(ax, chars) + 9 * chars
    &&& text_top(ay) <= y < text_top(ay) + 18
}

/// Whether drawing `text` centred on `(ax, ay)` sets pixel `(x, y)`.
pub open spec fn text_covers(text: Seq<char>, x: int, y: int, ax: int, ay: int) -> bool {
    &&& in_text_box(x, y, ax, ay, text.len() as int)
    &&& glyph_ink(text, x - text_left(ax, text.len() as int), y - text_top(ay))
}

/// The frame `old` after the one-line `text` was drawn in `color`, centred on
/// `(ax, ay)`: inked pixels take the colour, all others keep theirs.
pub open spec fn with_text(old: Seq<u8>, text: Seq<char>, ax: int, ay: int, color: u16) -> Seq<u8> {
    Seq::new(
        25600,
        |i: int|
            if text_covers(text, byte_x(i), byte_y(i), ax, ay) {
                color_byte(color, i)
            } else {
                old[i]
            },
    )
}

/// Whether `text` is a single line: it holds no line feed and no carriage
/// return.
pub open spec fn single_line(text: Seq<char>) -> bool {
    forall|i: int| 0 <= i < text.len() ==> text[i] != '\n' && text[i] != '\r'
}

/// Strokes the outline of a 160 by 80 frame through
/// `embedded_graphics::primitives::Styled::draw`, with the style of
/// `PrimitiveStyle::with_stroke`. The stroke is centred on the outline, so
/// its inner half, rounded up, is what lands inside the frame; nothing else
/// changes. The width is bounded so that the crate's size arithmetic cannot
/// overflow; a wider stroke fills the frame just as one of width 160 does.
#[verifier::external_body]
fn stroke_outline(data: &[u8], color: u16, stroke: u32) -> (out: Vec<u8>)
    requires
        data@.len() == 25600,
        stroke <= 160,
    ensures
        out@ == with_border(data@, color, stroke as int),
{
    let mut fb = Framebuffer::<Rgb565, RawU16, BigEndian, 160, 80, 25600>::new();
    fb.data_mut().copy_from_slice(data);
    let style = PrimitiveStyle::with_stroke(Rgb565::from(RawU16::new(color)), stroke);
    let _ = fb.bounding_box().into_styled(style).draw(&mut fb);
    fb.data().to_vec()
}

/// Draws a 64 pixel wide little-endian RGB565 image through
/// `embedded_graphics::image::Image::draw`, placed by `Image::with_center`.
/// Each frame pixel inside the image's extent takes the image's colour; the
/// frame drops what falls outside it. The centre and the row count are
/// bounded so that the crate's 32-bit point arithmetic cannot overflow.
#[verifier::external_body]
fn blit_centered(data: &[u8], image: &[u8], cx: i32, cy: i32) -> (out: Vec<u8>)
    requires
        data@.len() == 25600,
        image_rows(image@) <= 65535,
        -1000000 <= cx <= 1000000,
        -1000000 <= cy <= 1000000,
    ensures
        out@ == with_image(data@, image@, cx as int, cy as int),
{
    let mut fb = Framebuffer::<Rgb565, RawU16, BigEndian, 160, 80, 25600>::new();
    fb.data_mut().copy_from_slice(data);
    let raw: ImageRawLE<Rgb565> = ImageRaw::new(image, 64);
    let _ = Image::with_center(&raw, Point::new(cx, cy)).draw(&mut fb);
    fb.data().to_vec()
}

/// Draws one line of text through `embedded_graphics::text::Text::draw` in
/// the 9 by 18 bold font, centred on the anchor in both directions. Only
/// pixels of the line's box that the font inks change, and they take `color`;
/// which pixels the font inks depends on the text alone. The anchor and the
/// length are bounded so that the crate's 32-bit point arithmetic cannot
/// overflow, and the text is one line, since the crate breaks lines itself.
#[verifier::external_body]
fn print_centered(data: &[u8], text: &str, ax: i32, ay: i32, color: u16) -> (out: Vec<u8>)
    requires
        data@.len() == 25600,
        single_line(text@),
        text@.len() <= 1024,
        -1000000 <= ax <= 1000000,
        -1000000 <= ay <= 1000000,
    ensures
        out@.len() == 25600,
        forall|i: int|
            0 <= i < 25600 ==> #[trigger] out@[i] == (if in_text_box(
                byte_x(i),
                byte_y(i),
                ax as int,
                ay as int,
                text@.len() as int,
            ) && glyph_ink(
                text@,
                byte_x(i) - text_left(ax as int, text@.len() as int),
                byte_y(i) - text_top(ay as int),
            ) {
                color_byte(color, i)
            } else {
                data@[i]
            }),
{
    let mut fb = Framebuffer::<Rgb565, RawU16, BigEndian, 160, 80, 25600>::new();
    fb.data_mut().copy_from_slice(data);
    let ink = MonoTextStyle::new(&FONT_9X18_BOLD, Rgb565::from(RawU16::new(color)));
    let layout = TextStyleBuilder::new().alignment(Alignment::Center).baseline(Baseline::Middle).build();
    let _ = Text::with_text_style(text, Point::new(ax, ay), ink, layout).draw(&mut fb);
    fb.data().to_vec()
}

/// A frame of 160 by 80 RGB565 pixels, stored row by row, two bytes per pixel,
/// high byte first: the layout the panel takes on the wire.
pub struct PixelBuffer {
    data: Vec<u8>,
}

impl View for PixelBuffer {
    type V = Seq<u8>;

    closed spec fn view(&self) -> Seq<u8> {
        self.data@
    }
}

impl PixelBuffer {
    #[verifier::type_invariant]
    spec fn inv(&self) -> bool {
        self.data@.len() == 25600
    }

    /// The colour of pixel `(x, y)`.
    pub open spec fn spec_pixel(&self, x: int, y: int) -> u16 {
        pixel_of(self@, x, y)
    }

    /// A frame with every byte zero: all pixels black.
    pub fn new() -> (buf: PixelBuffer)
        ensures
            buf@.len() == FRAME_BYTES,
            forall|i: int| 0 <= i < FRAME_BYTES ==> buf@[i] == 0,
    {
        let mut data: Vec<u8> = Vec::new();
        let mut i: usize = 0;
        while i < FRAME_BYTES
            invariant
                i <= FRAME_BYTES,
                data@.len() == i,
                forall|k: int| 0 <= k < i ==> data@[k] == 0,
            decreases FRAME_BYTES - i,
        {
            data.push(0u8);
            i += 1;
        }
        PixelBuffer { data }
    }

    /// The colour at `(x, y)`, or `None` when the point lies outside the frame.
    pub fn pixel(&self, x: i32, y: i32) -> (color: Option<u16>)
        ensures
            self@.len() == FRAME_BYTES,
            in_frame(x as int, y as int) ==> color == Some(self.spec_pixel(x as int, y as int)),
            !in_frame(x as int, y as int) ==> color.is_none(),
    {
        proof {
            use_type_invariant(self);
        }
        if x < 0 || y < 0 || x >= 160 || y >= 80 {
            return None;
        }
        let i: usize = 2 * (y as usize * WIDTH + x as usize);
        let hi: u16 = self.data[i] as u16;
        let lo: u16 = self.data[i + 1] as u16;
        Some(hi * 256 + lo)
    }

    /// The frame as the bytes that go to the panel.
    pub fn as_bytes(&self) -> (bytes: &[u8])
        ensures
            bytes@ == self@,
            bytes@.len() == FRAME_BYTES,
    {
        proof {
            use_type_invariant(self);
        }
        self.data.as_slice()
    }
    /// Strokes a border of width `stroke` around the frame in `color`. The
    /// stroke is centred on the frame's outline, so `border_depth(stroke)`
    /// rows and columns along each edge take the colour.
    pub fn draw_border(&mut self, color: u16, stroke: u32)
        ensures
            final(self)@ == with_border(old(self)@, color, stroke as int),
            final(self)@.len() == FRAME_BYTES,
    {
        proof {
            use_type_invariant(&*self);
        }
        let width: u32 = if stroke > 160 { 160 } else { stroke };
        self.data = stroke_outline(self.data.as_slice(), color, width);
        proof {
            assert forall|i: int| 0 <= i < 25600 implies on_border(
                byte_x(i),
                byte_y(i),
                width as int,
            ) == on_border(byte_x(i), byte_y(i), stroke as int) by {
                assert(0 <= byte_y(i) < 80);
            }
            assert(self.data@ =~= with_border(old(self)@, color, stroke as int));
        }
    }

    /// Draws the raw image `image` centred on `(cx, cy)`. Pixels of the image that fall outside the frame
    /// are dropped; frame pixels outside the image keep their colour.
    pub fn draw_image(&mut self, image: &RawImage, cx: i32, cy: i32)
        ensures
            final(self)@ == with_image(old(self)@, image@, cx as int, cy as int),
            final(self)@.len() == FRAME_BYTES,
    {
        proof {
            use_type_invariant(&*self);
        }
        let image = image.as_bytes();
        let rows: i64 = (image.len() / IMAGE_ROW_BYTES) as i64;
        let left: i64 = cx as i64 - 31;
        let top: i64 = cy as i64 - (rows - 1) / 2;
        let visible = rows > 0 && left < 160 && left + 64 > 0 && top < 80 && top + rows > 0;
        if visible {
            self.data = blit_centered(self.data.as_slice(), image, cx, cy);
        } else {
            proof {
                assert forall|i: int| 0 <= i < 25600 implies !in_image(
                    byte_x(i),
                    byte_y(i),
                    cx as int,
                    cy as int,
                    image_rows(image@),
                ) by {
                    assert(0 <= byte_x(i) < 160);
                    assert(0 <= byte_y(i) < 80);
                }
                assert(self.data@ =~= with_image(old(self)@, image@, cx as int, cy as int));
            }
        }
    }

    /// Draws `label` in `color`, centred on `(ax, ay)` in both
    /// directions. Glyph pixels overdraw what lies beneath them; what falls
    /// outside the frame is dropped.
    pub fn draw_text(&mut self, label: &Label, ax: i32, ay: i32, color: u16)
        ensures
            final(self)@ == with_text(old(self)@, label@, ax as int, ay as int, color),
            final(self)@.len() == FRAME_BYTES,
    {
        proof {
            use_type_invariant(&*self);
        }
        let text = label.as_str();
        let chars: i64 = text.unicode_len() as i64;
        let left: i64 = if chars == 0 { ax as i64 } else { ax as i64 - (9 * chars - 1) / 2 };
        let top: i64 = ay as i64 - 8;
        let visible = left < 160 && left + 9 * chars > 0 && top < 80 && top + 18 > 0;
        if visible {
            self.data = print_centered(self.data.as_slice(), text, ax, ay, color);
            assert(self.data@ =~= with_text(old(self)@, text@, ax as int, ay as int, color));
        } else {
            proof {
                assert forall|i: int| 0 <= i < 25600 implies !in_text_box(
                    byte_x(i),
                    byte_y(i),
                    ax as int,
                    ay as int,
                    text@.len() as int,
                ) by {
                    assert(0 <= byte_x(i) < 160);
                    assert(0 <= byte_y(i) < 80);
                }
                assert(self.data@ =~= with_text(old(self)@, text@, ax as int, ay as int, color));
            }
        }
    }
}

} // verus!
