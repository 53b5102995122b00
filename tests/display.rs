use steering_wheel::font::glyph_pixel;
use steering_wheel::framebuffer::{
    pack_pixels, Ssd1322Display, DISPLAY_HEIGHT, DISPLAY_LOW_SHADE, DISPLAY_MID_SHADE,
    DISPLAY_VLOW_SHADE, DISPLAY_WHITE, DISPLAY_WIDTH,
};

fn frame(d: &Ssd1322Display) -> Vec<u8> {
    let mut out = Vec::new();
    for y in 0..DISPLAY_HEIGHT {
        for x in 0..DISPLAY_WIDTH {
            out.push(d.pixel(x, y));
        }
    }
    out
}

#[test]
fn new_display_is_black() {
    let d = Ssd1322Display::new();
    assert!(frame(&d).iter().all(|&p| p == 0));
    assert_eq!(frame(&d).len(), 256 * 64);
}

#[test]
fn clear_blacks_out_every_pixel() {
    let mut d = Ssd1322Display::new();
    d.fill_rect(0, 0, 256, 64, 9);
    d.draw_string(0, 0, DISPLAY_WHITE, 3, &[68, 101]);
    d.clear();
    let f = frame(&d);
    assert_eq!(f.len(), 256 * 64);
    assert!(f.iter().all(|&p| p == 0));
}

#[test]
fn draw_pixel_sets_one_pixel_on_the_panel() {
    let mut d = Ssd1322Display::new();
    d.draw_pixel(255, 63, 7);
    d.draw_pixel(0, 0, 15);
    assert_eq!(d.pixel(255, 63), 7);
    assert_eq!(d.pixel(0, 0), 15);
    assert_eq!(frame(&d).iter().filter(|&&p| p != 0).count(), 2);
}

#[test]
fn draw_pixel_off_the_panel_changes_nothing() {
    let mut d = Ssd1322Display::new();
    d.draw_pixel(3, 3, 5);
    let before = frame(&d);
    d.draw_pixel(256, 0, 15);
    d.draw_pixel(0, 64, 15);
    d.draw_pixel(usize::MAX, usize::MAX, 15);
    d.draw_pixel(256, 0, 15);
    assert_eq!(frame(&d), before);
}

#[test]
fn packing_round_trips_every_pair() {
    for a in 0..16u8 {
        for b in 0..16u8 {
            let p = pack_pixels(a, b);
            assert_eq!(p >> 4, a);
            assert_eq!(p & 0x0F, b);
        }
    }
    assert_eq!(pack_pixels(0xA, 0x5), 0xA5);
}

#[test]
fn chunks_carry_pixels_in_scan_order() {
    let mut d = Ssd1322Display::new();
    d.draw_pixel(0, 0, 15);
    d.draw_pixel(1, 0, 3);
    d.draw_pixel(254, 63, 1);
    d.draw_pixel(255, 63, 2);
    d.draw_pixel(2, 1, 6);
    let first = d.packed_chunk(0);
    assert_eq!(first.len(), 128);
    assert_eq!(first[0], 0xF3);
    assert!(first[1..].iter().all(|&b| b == 0));
    let second = d.packed_chunk(1);
    assert_eq!(second[1], 0x60);
    let last = d.packed_chunk(63);
    assert_eq!(last[127], 0x12);
}

#[test]
fn fill_rect_is_clipped_to_the_panel() {
    let mut d = Ssd1322Display::new();
    d.fill_rect(250, 60, 100, 100, 4);
    for y in 0..64 {
        for x in 0..256 {
            let inside = x >= 250 && y >= 60;
            assert_eq!(d.pixel(x, y), if inside { 4 } else { 0 });
        }
    }
}

#[test]
fn glyph_bitmap_lookup() {
    // 'T': full top row, then the middle column only.
    for col in 0..5 {
        assert!(glyph_pixel(84, col, 0));
    }
    assert!(glyph_pixel(84, 2, 5));
    assert!(!glyph_pixel(84, 0, 5));
    // a character outside the font is blank
    for row in 0..8 {
        for col in 0..5 {
            assert!(!glyph_pixel(35, col, row));
        }
    }
}

#[test]
fn draw_char_scales_font_cells() {
    let mut d = Ssd1322Display::new();
    d.draw_char(20, 10, 15, 2, 84);
    // top row of 'T' is lit: a 10 by 2 band in the foreground shade
    for x in 20..30 {
        assert_eq!(d.pixel(x, 10), 15);
        assert_eq!(d.pixel(x, 11), 15);
    }
    // the rest of the cell not on the stem is background
    assert_eq!(d.pixel(20, 12), 2);
    assert_eq!(d.pixel(24, 12), 15);
    assert_eq!(d.pixel(25, 13), 15);
    assert_eq!(d.pixel(26, 12), 2);
    // outside the cell is untouched
    assert_eq!(d.pixel(30, 10), 0);
    assert_eq!(d.pixel(20, 26), 0);
}

#[test]
fn draw_string_large_uses_twenty_pixel_cells() {
    let mut d = Ssd1322Display::new();
    d.draw_string_large(0, 0, 15, 1, &[84, 84]);
    for x in 0..40 {
        assert_eq!(d.pixel(x, 0), 15);
        assert_eq!(d.pixel(x, 3), 15);
    }
    assert_eq!(d.pixel(40, 0), 0);
    assert_eq!(d.pixel(0, 31), 1);
}

#[test]
fn box_outline_draws_only_the_border() {
    let mut d = Ssd1322Display::new();
    d.draw_box_outline(10, 10, 5, 4);
    for y in 10..14 {
        for x in 10..15 {
            let edge = x == 10 || x == 14 || y == 10 || y == 13;
            assert_eq!(d.pixel(x, y), if edge { 15 } else { 0 });
        }
    }
    assert_eq!(frame(&d).iter().filter(|&&p| p != 0).count(), 14);
}

#[test]
fn shades_are_ordered() {
    assert!(DISPLAY_VLOW_SHADE < DISPLAY_LOW_SHADE);
    assert!(DISPLAY_LOW_SHADE < DISPLAY_MID_SHADE);
    assert!(DISPLAY_MID_SHADE < DISPLAY_WHITE);
}
