//! What a frame is composed from: the raw image and the text label, each
//! checked once when it is made.

use crate::frame::{image_rows, single_line};
use vstd::prelude::*;
use vstd::string::StrSliceExecFns;

verus! {

/// Most rows a raw image may have.
pub const MAX_IMAGE_ROWS: usize = 65535;

/// Most characters a label may have.
pub const MAX_LABEL_CHARS: usize = 1024;

/// The colour of pixel `(x, y)` of the raw image bytes `image`: 64 pixels a
/// row, two bytes a pixel, low byte first.
pub open spec fn image_pixel(image: Seq<u8>, x: int, y: int) -> u16 {
    (image[2 * (y * 64 + x) + 1] as int * 256 + image[2 * (y * 64 + x)] as int) as u16
}

/// A raw RGB565 image, 64 pixels wide. Its height is the number of complete
/// rows in its bytes; bytes of a last, partial row are never drawn.
pub struct RawImage {
    data: Vec<u8>,
}

impl View for RawImage {
    type V = Seq<u8>;

    closed spec fn view(&self) -> Seq<u8> {
        self.data@
    }
}

impl RawImage {
    #[verifier::type_invariant]
    spec fn inv(&self) -> bool {
        image_rows(self.data@) <= 65535
    }

    /// Takes `bytes` as an image, unless they hold more than
    /// `MAX_IMAGE_ROWS` rows.
    pub fn from_bytes(bytes: Vec<u8>) -> (image: Option<RawImage>)
        ensures
            image.is_some() <==> image_rows(bytes@) <= MAX_IMAGE_ROWS,
            image matches Some(img) ==> img@ == bytes@,
    {
        if bytes.len() / 128 > MAX_IMAGE_ROWS {
            None
        } else {
            Some(RawImage { data: bytes })
        }
    }

    /// Number of rows of the image.
    pub fn height(&self) -> (rows: usize)
        ensures
            rows == image_rows(self@),
            rows <= MAX_IMAGE_ROWS,
    {
        proof {
            use_type_invariant(self);
        }
        self.data.len() / 128
    }

    /// The colour at `(x, y)`, or `None` when the point lies outside the
    /// image.
    pub fn pixel(&self, x: usize, y: usize) -> (color: Option<u16>)
        ensures
            (x < 64 && y < image_rows(self@)) ==> color == Some(image_pixel(self@, x as int, y as int)),
            !(x < 64 && y < image_rows(self@)) ==> color.is_none(),
    {
        proof {
            use_type_invariant(self);
        }
        if x >= 64 || y >= self.data.len() / 128 {
            return None;
        }
        let i: usize = 2 * (y * 64 + x);
        let lo: u16 = self.data[i] as u16;
        let hi: u16 = self.data[i + 1] as u16;
        Some(hi * 256 + lo)
    }

    /// The image's bytes.
    pub fn as_bytes(&self) -> (bytes: &[u8])
        ensures
            bytes@ == self@,
            image_rows(bytes@) <= MAX_IMAGE_ROWS,
    {
        proof {
            use_type_invariant(self);
        }
        self.data.as_slice()
    }
}

/// One line of text to draw on a frame.
pub struct Label {
    text: String,
}

impl View for Label {
    type V = Seq<char>;

    closed spec fn view(&self) -> Seq<char> {
        self.text@
    }
}

impl Label {
    #[verifier::type_invariant]
    spec fn inv(&self) -> bool {
        single_line(self.text@) && self.text@.len() <= 1024
    }

    /// Takes `text` as a label, unless it breaks into several lines or
    /// holds more than `MAX_LABEL_CHARS` characters.
    pub fn new(text: &str) -> (label: Option<Label>)
        ensures
            label.is_some() <==> (single_line(text@) && text@.len() <= MAX_LABEL_CHARS),
            label matches Some(l) ==> l@ == text@,
    {
        let n = text.unicode_len();
        if n > MAX_LABEL_CHARS {
            return None;
        }
        let mut i: usize = 0;
        while i < n
            invariant
                i <= n,
                n == text@.len(),
                forall|k: int| 0 <= k < i ==> text@[k] != '\n' && text@[k] != '\r',
            decreases n - i,
        {
            let c = text.get_char(i);
            if c == '\n' || c == '\r' {
                return None;
            }
            i += 1;
        }
        Some(Label { text: text.to_owned() })
    }

    /// Number of characters of the label.
    pub fn chars(&self) -> (n: usize)
        ensures
            n == self@.len(),
            n <= MAX_LABEL_CHARS,
    {
        proof {
            use_type_invariant(self);
        }
        self.text.as_str().unicode_len()
    }

    /// The label's text.
    pub fn as_str(&self) -> (text: &str)
        ensures
            text@ == self@,
            single_line(text@),
            text@.len() <= MAX_LABEL_CHARS,
    {
        proof {
            use_type_invariant(self);
        }
        self.text.as_str()
    }
}

} // verus!
