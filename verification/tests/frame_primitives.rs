use render_supervisor::assets::{Label, RawImage};
use render_supervisor::frame::PixelBuffer;

fn border_model(x: i64, y: i64, stroke: i64) -> bool {
    let t = (stroke + 1) / 2;
    x < t || y < t || x >= 160 - t || y >= 80 - t
}

fn gradient_image(rows: usize, extra: usize) -> Vec<u8> {
    let mut v = Vec::new();
    for k in 0..(rows * 64) {
        let c = (k as u32 * 2654435761u32 >> 16) as u16 | 1;
        v.push((c & 0xff) as u8);
        v.push((c >> 8) as u8);
    }
    for e in 0..extra {
        v.push(e as u8);
    }
    v
}

fn filled(color: u16) -> PixelBuffer {
    let mut b = PixelBuffer::new();
    b.draw_border(color, 1000);
    b
}

#[test]
fn new_buffer_is_black() {
    let b = PixelBuffer::new();
    assert_eq!(b.as_bytes().len(), 25600);
    assert!(b.as_bytes().iter().all(|&v| v == 0));
    assert_eq!(b.pixel(0, 0), Some(0));
    assert_eq!(b.pixel(159, 79), Some(0));
    assert_eq!(b.pixel(160, 0), None);
    assert_eq!(b.pixel(0, 80), None);
    assert_eq!(b.pixel(-1, 0), None);
    assert_eq!(b.pixel(0, -1), None);
}

#[test]
fn border_matches_model_for_every_stroke() {
    let strokes: Vec<u32> = (0..=200).chain([1000, 65536, u32::MAX - 1, u32::MAX]).collect();
    for stroke in strokes {
        let mut b = filled(0x1234);
        b.draw_border(0xF800, stroke);
        for y in 0..80 {
            for x in 0..160 {
                let want = if border_model(x, y, stroke as i64) { 0xF800 } else { 0x1234 };
                assert_eq!(b.pixel(x as i32, y as i32), Some(want), "stroke {stroke} at {x},{y}");
            }
        }
    }
}

#[test]
fn border_of_width_two_is_one_pixel_deep() {
    let mut b = PixelBuffer::new();
    b.draw_border(0xF800, 2);
    assert_eq!(b.pixel(0, 0), Some(0xF800));
    assert_eq!(b.pixel(159, 79), Some(0xF800));
    assert_eq!(b.pixel(80, 0), Some(0xF800));
    assert_eq!(b.pixel(0, 40), Some(0xF800));
    assert_eq!(b.pixel(1, 1), Some(0));
    assert_eq!(b.pixel(158, 78), Some(0));
    assert_eq!(&b.as_bytes()[0..4], &[0xF8, 0x00, 0xF8, 0x00]);
}

#[test]
fn border_bytes_are_high_byte_first() {
    let mut b = PixelBuffer::new();
    b.draw_border(0x12AB, 2);
    assert_eq!(&b.as_bytes()[0..2], &[0x12, 0xAB]);
    assert_eq!(b.pixel(0, 0), Some(0x12AB));
}

fn check_image(rows: usize, extra: usize, cx: i32, cy: i32) {
    let bytes = gradient_image(rows, extra);
    let img = RawImage::from_bytes(bytes.clone()).unwrap();
    assert_eq!(img.height(), rows);
    let mut b = filled(0x0020);
    b.draw_image(&img, cx, cy);
    let left = cx as i64 - 31;
    let top = cy as i64 - (rows as i64 - 1) / 2;
    for y in 0..80i64 {
        for x in 0..160i64 {
            let inside = rows > 0 && x >= left && x < left + 64 && y >= top && y < top + rows as i64;
            let want = if inside {
                let k = ((y - top) * 64 + (x - left)) as usize;
                (bytes[2 * k + 1] as u16) << 8 | bytes[2 * k] as u16
            } else {
                0x0020
            };
            assert_eq!(b.pixel(x as i32, y as i32), Some(want), "rows {rows} c {cx},{cy} at {x},{y}");
        }
    }
}

#[test]
fn image_matches_model_inside_and_clipped() {
    for &rows in &[0usize, 1, 2, 3, 63, 64, 65, 80, 81, 200] {
        for &(cx, cy) in &[
            (80, 40), (0, 0), (159, 79), (31, 31), (30, 30), (-31, 40), (-32, 40), (-33, 40),
            (190, 40), (191, 40), (80, -10), (80, 100), (80, -200), (80, 300), (5, 75),
            (i32::MAX, i32::MAX), (i32::MIN, i32::MIN), (i32::MAX, 40), (80, i32::MIN),
        ] {
            check_image(rows, 0, cx, cy);
        }
    }
    check_image(64, 127, 80, 40);
    check_image(3, 1, 10, 10);
}

#[test]
fn image_pixels_decode_low_byte_first() {
    let img = RawImage::from_bytes(vec![0x34, 0x12, 0xCD, 0xAB]).unwrap();
    assert_eq!(img.height(), 0);
    assert_eq!(img.pixel(0, 0), None);
    let mut bytes = vec![0u8; 128];
    bytes[0] = 0x34;
    bytes[1] = 0x12;
    bytes[126] = 0xCD;
    bytes[127] = 0xAB;
    let img = RawImage::from_bytes(bytes).unwrap();
    assert_eq!(img.height(), 1);
    assert_eq!(img.pixel(0, 0), Some(0x1234));
    assert_eq!(img.pixel(63, 0), Some(0xABCD));
    assert_eq!(img.pixel(64, 0), None);
    assert_eq!(img.pixel(0, 1), None);
    let mut b = PixelBuffer::new();
    b.draw_image(&img, 31, 0);
    assert_eq!(b.pixel(0, 0), Some(0x1234));
    assert_eq!(b.pixel(63, 0), Some(0xABCD));
    assert_eq!(&b.as_bytes()[0..2], &[0x12, 0x34]);
}

#[test]
fn image_too_tall_is_refused() {
    assert!(RawImage::from_bytes(vec![0u8; 128 * 65535]).is_some());
    assert!(RawImage::from_bytes(vec![0u8; 128 * 65535 + 127]).is_some());
    assert!(RawImage::from_bytes(vec![0u8; 128 * 65536]).is_none());
}

#[test]
fn tallest_image_draws_its_middle_rows() {
    let mut bytes = vec![0u8; 128 * 65535];
    let top = 40i64 - (65535 - 1) / 2;
    let k = ((0 - top) * 64 + (80 - 49)) as usize;
    bytes[2 * k] = 0x0F;
    bytes[2 * k + 1] = 0xF0;
    let img = RawImage::from_bytes(bytes).unwrap();
    let mut b = filled(0xFFFF);
    b.draw_image(&img, 80, 40);
    assert_eq!(b.pixel(80, 0), Some(0xF00F));
    assert_eq!(b.pixel(81, 0), Some(0));
    assert_eq!(b.pixel(48, 0), Some(0xFFFF));
}

#[test]
fn label_accepts_one_line_only() {
    assert!(Label::new("Hello Rust!").is_some());
    assert!(Label::new("").is_some());
    assert!(Label::new("a\nb").is_none());
    assert!(Label::new("a\r").is_none());
    assert!(Label::new("\n").is_none());
    assert!(Label::new(&"x".repeat(1024)).is_some());
    assert!(Label::new(&"x".repeat(1025)).is_none());
    let l = Label::new("héllo").unwrap();
    assert_eq!(l.chars(), 5);
    assert_eq!(l.as_str(), "héllo");
}

fn text_box(ax: i64, ay: i64, n: i64) -> (i64, i64, i64, i64) {
    let left = if n == 0 { ax } else { ax - (9 * n - 1) / 2 };
    (left, ay - 8, 9 * n, 18)
}

fn ink_pattern(text: &str, ax: i32, ay: i32) -> Vec<(i64, i64)> {
    let label = Label::new(text).unwrap();
    let mut b = filled(0x0841);
    b.draw_text(&label, ax, ay, 0xCAEB);
    let (left, top, w, h) = text_box(ax as i64, ay as i64, label.chars() as i64);
    let mut ink = Vec::new();
    for y in 0..80i64 {
        for x in 0..160i64 {
            let p = b.pixel(x as i32, y as i32).unwrap();
            if p != 0x0841 {
                assert_eq!(p, 0xCAEB);
                assert!(x >= left && x < left + w && y >= top && y < top + h, "{text:?} ink at {x},{y} outside box");
                ink.push((x - left, y - top));
            }
        }
    }
    ink
}

#[test]
fn text_inks_only_its_box_in_its_colour() {
    let ink = ink_pattern("Hello Rust!", 80, 40);
    assert!(ink.len() > 100);
    assert!(ink.iter().any(|&(c, _)| c < 9));
    assert!(ink.iter().any(|&(c, _)| c >= 90));
    assert!(ink_pattern("", 80, 40).is_empty());
    assert!(ink_pattern("   ", 80, 40).is_empty());
}

#[test]
fn text_pattern_moves_with_the_anchor() {
    let base = ink_pattern("Rust", 80, 40);
    assert!(!base.is_empty());
    for &(ax, ay) in &[(40, 20), (100, 60), (81, 41), (79, 39), (18, 8), (141, 70)] {
        assert_eq!(ink_pattern("Rust", ax, ay), base, "anchor {ax},{ay}");
    }
}

#[test]
fn text_is_clipped_at_the_frame() {
    let base = ink_pattern("Hello Rust!", 80, 40);
    for &(ax, ay) in &[(0, 0), (159, 79), (-40, 40), (200, 40), (80, -5), (80, 85)] {
        let got = ink_pattern("Hello Rust!", ax, ay);
        let (left, top, _, _) = text_box(ax as i64, ay as i64, 11);
        let want: Vec<(i64, i64)> = base
            .iter()
            .copied()
            .filter(|&(c, r)| {
                let (x, y) = (left + c, top + r);
                x >= 0 && x < 160 && y >= 0 && y < 80
            })
            .collect();
        let mut got_sorted = got.clone();
        got_sorted.sort();
        let mut want_sorted = want.clone();
        want_sorted.sort();
        assert_eq!(got_sorted, want_sorted, "anchor {ax},{ay}");
    }
    for &(ax, ay) in &[(i32::MAX, 40), (i32::MIN, 40), (80, i32::MAX), (80, i32::MIN), (80, -10), (80, 89), (-50, 40), (210, 40)] {
        assert!(ink_pattern("Hello Rust!", ax, ay).is_empty(), "anchor {ax},{ay}");
    }
}

#[test]
fn longest_label_draws() {
    let text = "W".repeat(1024);
    let ink = ink_pattern(&text, 80, 40);
    assert!(!ink.is_empty());
    let (left, _, _, _) = text_box(80, 40, 1024);
    assert_eq!(left, 80 - (9 * 1024 - 1) / 2);
    assert!(ink.iter().all(|&(c, _)| left + c >= 0 && left + c < 160));
}
