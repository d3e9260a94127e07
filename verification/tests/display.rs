use cube_render::{finish_frame, Colour, Display, FrameStep};

fn pixel(d: &Display, x: usize, y: usize) -> [u8; 4] {
    let i = (x + y * d.width) * 4;
    [d.pixels[i], d.pixels[i + 1], d.pixels[i + 2], d.pixels[i + 3]]
}

#[test]
fn new_sets_size_and_zeroes_buffer() {
    let d = Display::new(3, 2);
    assert_eq!(d.width, 3);
    assert_eq!(d.height, 2);
    assert_eq!(d.pixels.len(), 24);
    assert!(d.pixels.iter().all(|b| *b == 0));
}

#[test]
fn new_with_zero_width_is_empty() {
    let d = Display::new(0, 5);
    assert_eq!(d.height, 5);
    assert!(d.pixels.is_empty());
}

#[test]
fn new_at_screen_size() {
    let d = Display::new(1920, 1080);
    assert_eq!(d.pixels.len(), 1920 * 1080 * 4);
}

#[test]
fn set_pixel_writes_colour_and_opaque_alpha() {
    let mut d = Display::new(3, 2);
    d.set_pixel(1, 1, Colour { r: 10, g: 20, b: 30 });
    assert_eq!(&d.pixels[16..20], &[10, 20, 30, 255]);
    let mut expected = vec![0u8; 24];
    expected[16] = 10;
    expected[17] = 20;
    expected[18] = 30;
    expected[19] = 255;
    assert_eq!(d.pixels, expected);
}

#[test]
fn set_pixel_first_and_last_pixel() {
    let mut d = Display::new(3, 2);
    d.set_pixel(0, 0, Colour { r: 1, g: 2, b: 3 });
    d.set_pixel(2, 1, Colour { r: 4, g: 5, b: 6 });
    assert_eq!(&d.pixels[0..4], &[1, 2, 3, 255]);
    assert_eq!(&d.pixels[20..24], &[4, 5, 6, 255]);
    assert!(d.pixels[4..20].iter().all(|b| *b == 0));
}

#[test]
fn set_pixel_off_display_is_ignored() {
    let mut d = Display::new(3, 2);
    d.set_pixel(3, 0, Colour { r: 9, g: 9, b: 9 });
    d.set_pixel(0, 2, Colour { r: 9, g: 9, b: 9 });
    d.set_pixel(usize::MAX, usize::MAX, Colour { r: 9, g: 9, b: 9 });
    assert_eq!(d.pixels, vec![0u8; 24]);
}

#[test]
fn read_after_paint_and_others_untouched() {
    let mut d = Display::new(4, 4);
    d.set_pixel(2, 3, Colour { r: 7, g: 8, b: 9 });
    assert_eq!(pixel(&d, 2, 3), [7, 8, 9, 255]);
    for y in 0..4 {
        for x in 0..4 {
            if (x, y) != (2, 3) {
                assert_eq!(pixel(&d, x, y), [0, 0, 0, 0]);
            }
        }
    }
}

#[test]
fn last_paint_wins() {
    let mut a = Display::new(3, 3);
    a.set_pixel(1, 2, Colour { r: 1, g: 1, b: 1 });
    a.set_pixel(1, 2, Colour { r: 200, g: 100, b: 50 });
    let mut b = Display::new(3, 3);
    b.set_pixel(1, 2, Colour { r: 200, g: 100, b: 50 });
    assert_eq!(a.pixels, b.pixels);
}

#[test]
fn paints_commute() {
    let c1 = Colour { r: 1, g: 2, b: 3 };
    let c2 = Colour { r: 4, g: 5, b: 6 };
    let mut a = Display::new(3, 3);
    a.set_pixel(0, 1, c1);
    a.set_pixel(2, 0, c2);
    let mut b = Display::new(3, 3);
    b.set_pixel(2, 0, c2);
    b.set_pixel(0, 1, c1);
    assert_eq!(a.pixels, b.pixels);
}

#[test]
fn clear_erases_drawing() {
    let mut d = Display::new(3, 2);
    d.set_pixel(1, 0, Colour { r: 255, g: 255, b: 255 });
    d.clear();
    assert_eq!(d.width, 3);
    assert_eq!(d.height, 2);
    assert_eq!(d.pixels, Display::new(3, 2).pixels);
}

#[test]
fn clear_follows_changed_size() {
    let mut d = Display::new(3, 2);
    d.width = 2;
    d.height = 2;
    d.clear();
    assert_eq!(d.pixels, vec![0u8; 16]);
}

#[test]
fn finish_frame_shown_clears_and_continues() {
    let mut d = Display::new(2, 2);
    d.set_pixel(1, 1, Colour { r: 3, g: 3, b: 3 });
    assert_eq!(finish_frame(&mut d, true), FrameStep::Continue);
    assert_eq!(d.pixels, vec![0u8; 16]);
    assert_eq!((d.width, d.height), (2, 2));
}

#[test]
fn finish_frame_failed_stops_and_keeps_buffer() {
    let mut d = Display::new(2, 2);
    d.set_pixel(1, 1, Colour { r: 3, g: 3, b: 3 });
    let before = d.pixels.clone();
    assert_eq!(finish_frame(&mut d, false), FrameStep::Stop);
    assert_eq!(d.pixels, before);
}
