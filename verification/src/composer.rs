//! The frame composer: a border, an image and a label, layered in that order.

use crate::assets::{Label, RawImage};
use crate::frame::{
    byte_index, byte_x, byte_y, color_byte, image_rows, in_frame, in_image, in_text_box,
    on_border, pixel_of, text_left, text_top, with_border, with_image, with_text, PixelBuffer,
};
use vstd::prelude::*;

verus! {

/// RGB565 black.
pub const BLACK: u16 = 0x0000;

/// RGB565 red.
pub const RED: u16 = 0xF800;

/// RGB565 rendering of the web colour "indian red".
pub const INDIAN_RED: u16 = 0xCAEB;

/// What a frame is composed from. The image and the label share one anchor.
pub struct Scene {
    pub border_color: u16,
    pub border_stroke: u32,
    pub image: RawImage,
    pub label: Label,
    pub text_color: u16,
    pub anchor_x: i32,
    pub anchor_y: i32,
}

/// The frame bytes after border, image and text were layered onto `old`, in
/// that order: each layer overdraws the ones before it where it covers them.
pub open spec fn composed(
    old: Seq<u8>,
    border_color: u16,
    border_stroke: int,
    image: Seq<u8>,
    text: Seq<char>,
    text_color: u16,
    ax: int,
    ay: int,
) -> Seq<u8> {
    with_text(
        with_image(with_border(old, border_color, border_stroke), image, ax, ay),
        text,
        ax,
        ay,
        text_color,
    )
}

impl Scene {
    /// The frame bytes that composing this scene onto `old` gives.
    pub open spec fn onto(&self, old: Seq<u8>) -> Seq<u8> {
        composed(
            old,
            self.border_color,
            self.border_stroke as int,
            self.image@,
            self.label@,
            self.text_color,
            self.anchor_x as int,
            self.anchor_y as int,
        )
    }

    /// The scene of the demonstration panel: a red border of stroke 2, and
    /// `image` and `label` centred on the middle of the frame, the label in
    /// indian red.
    pub fn centered(image: RawImage, label: Label) -> (scene: Scene)
        ensures
            scene.border_color == RED,
            scene.border_stroke == 2,
            scene.image == image,
            scene.label == label,
            scene.text_color == INDIAN_RED,
            scene.anchor_x == 80,
            scene.anchor_y == 40,
    {
        Scene {
            border_color: RED,
            border_stroke: 2,
            image,
            label,
            text_color: INDIAN_RED,
            anchor_x: 80,
            anchor_y: 40,
        }
    }
}

/// Layers `scene` onto `buf`: the border first, then the image, then the
/// label. Nothing here waits or fails; what a layer would draw outside the
/// frame is dropped.
pub fn compose(buf: &mut PixelBuffer, scene: &Scene)
    ensures
        final(buf)@ == scene.onto(old(buf)@),
        final(buf)@.len() == 25600,
{
    buf.draw_border(scene.border_color, scene.border_stroke);
    buf.draw_image(&scene.image, scene.anchor_x, scene.anchor_y);
    buf.draw_text(&scene.label, scene.anchor_x, scene.anchor_y, scene.text_color);
}

/// Composes `scene` onto a fresh, black frame.
pub fn compose_frame(scene: &Scene) -> (buf: PixelBuffer)
    ensures
        buf@ == scene.onto(Seq::new(25600, |i: int| 0u8)),
        buf@.len() == 25600,
{
    let mut buf = PixelBuffer::new();
    assert(buf@ =~= Seq::new(25600, |i: int| 0u8));
    compose(&mut buf, scene);
    buf
}

/// Composing is repeatable: composing the same scene a second time onto the
/// frame it gave changes no byte, and two frames that start out equal, byte
/// for byte, end up equal.
pub proof fn lemma_compose_repeatable(
    a: Seq<u8>,
    b: Seq<u8>,
    border_color: u16,
    border_stroke: int,
    image: Seq<u8>,
    text: Seq<char>,
    text_color: u16,
    ax: int,
    ay: int,
)
    requires
        a.len() == 25600,
        b.len() == 25600,
        forall|i: int| 0 <= i < 25600 ==> a[i] == b[i],
    ensures
        composed(a, border_color, border_stroke, image, text, text_color, ax, ay) == composed(
            b,
            border_color,
            border_stroke,
            image,
            text,
            text_color,
            ax,
            ay,
        ),
        composed(
            composed(a, border_color, border_stroke, image, text, text_color, ax, ay),
            border_color,
            border_stroke,
            image,
            text,
            text_color,
            ax,
            ay,
        ) == composed(a, border_color, border_stroke, image, text, text_color, ax, ay),
{
    assert(a =~= b);
    let once = composed(a, border_color, border_stroke, image, text, text_color, ax, ay);
    let twice = composed(once, border_color, border_stroke, image, text, text_color, ax, ay);
    assert(twice =~= once);
}

/// Drawing an image clips: the frame keeps its size, and a byte changes only
/// if its pixel lies inside the image's extent, wherever the anchor is.
pub proof fn lemma_image_clips(old: Seq<u8>, image: Seq<u8>, cx: int, cy: int)
    requires
        old.len() == 25600,
    ensures
        with_image(old, image, cx, cy).len() == 25600,
        forall|i: int|
            0 <= i < 25600 && #[trigger] with_image(old, image, cx, cy)[i] != old[i] ==> in_frame(
                byte_x(i),
                byte_y(i),
            ) && in_image(byte_x(i), byte_y(i), cx, cy, image_rows(image)),
{
}

/// Drawing text clips: the frame keeps its size, and a byte changes only if
/// its pixel lies inside the text's box, wherever the anchor is.
pub proof fn lemma_text_clips(old: Seq<u8>, text: Seq<char>, ax: int, ay: int, color: u16)
    requires
        old.len() == 25600,
    ensures
        with_text(old, text, ax, ay, color).len() == 25600,
        forall|i: int|
            0 <= i < 25600 && #[trigger] with_text(old, text, ax, ay, color)[i] != old[i]
                ==> in_frame(byte_x(i), byte_y(i)) && in_text_box(
                byte_x(i),
                byte_y(i),
                ax,
                ay,
                text.len() as int,
            ),
{
}

/// The box of a centred line sits evenly about its anchor: the anchor's
/// distance to the first and to the last column of the box differ by at most
/// one, and so do its distances to the first and to the last row.
pub proof fn lemma_text_centered(ax: int, ay: int, chars: int)
    requires
        chars >= 1,
    ensures
        in_text_box(ax, ay, ax, ay, chars),
        -1 <= (ax - text_left(ax, chars)) - (text_left(ax, chars) + 9 * chars - 1 - ax) <= 1,
        -1 <= (ay - text_top(ay)) - (text_top(ay) + 17 - ay) <= 1,
{
}

/// A pixel stored as two colour bytes reads back as that colour.
pub proof fn lemma_pixel_of_color(data: Seq<u8>, x: int, y: int, color: u16)
    requires
        data[byte_index(x, y)] == color_byte(color, byte_index(x, y)),
        data[byte_index(x, y) + 1] == color_byte(color, byte_index(x, y) + 1),
    ensures
        pixel_of(data, x, y) == color,
{
}

/// The border survives composition wherever no later layer covers it: a
/// border pixel outside the image's extent and outside the text's box has
/// the border colour in the composed frame.
pub proof fn lemma_border_survives(
    old: Seq<u8>,
    border_color: u16,
    border_stroke: int,
    image: Seq<u8>,
    text: Seq<char>,
    text_color: u16,
    ax: int,
    ay: int,
    x: int,
    y: int,
)
    requires
        old.len() == 25600,
        in_frame(x, y),
        on_border(x, y, border_stroke),
        !in_image(x, y, ax, ay, image_rows(image)),
        !in_text_box(x, y, ax, ay, text.len() as int),
    ensures
        pixel_of(
            composed(old, border_color, border_stroke, image, text, text_color, ax, ay),
            x,
            y,
        ) == border_color,
{
    let i = byte_index(x, y);
    assert(byte_x(i) == x && byte_y(i) == y);
    assert(byte_x(i + 1) == x && byte_y(i + 1) == y);
    let out = composed(old, border_color, border_stroke, image, text, text_color, ax, ay);
    assert(out[i] == color_byte(border_color, i));
    assert(out[i + 1] == color_byte(border_color, i + 1));
    lemma_pixel_of_color(out, x, y, border_color);
}

/// A frame pixel that no layer covers keeps the colour it had: composition
/// writes only the border, the image's extent and the text's box.
pub proof fn lemma_uncovered_pixel_kept(
    old: Seq<u8>,
    border_color: u16,
    border_stroke: int,
    image: Seq<u8>,
    text: Seq<char>,
    text_color: u16,
    ax: int,
    ay: int,
    x: int,
    y: int,
)
    requires
        old.len() == 25600,
        in_frame(x, y),
        !on_border(x, y, border_stroke),
        !in_image(x, y, ax, ay, image_rows(image)),
        !in_text_box(x, y, ax, ay, text.len() as int),
    ensures
        pixel_of(
            composed(old, border_color, border_stroke, image, text, text_color, ax, ay),
            x,
            y,
        ) == pixel_of(old, x, y),
{
    let i = byte_index(x, y);
    assert(byte_x(i) == x && byte_y(i) == y);
    assert(byte_x(i + 1) == x && byte_y(i + 1) == y);
}

} // verus!
