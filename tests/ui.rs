use steering_wheel::framebuffer::{
    Ssd1322Display, DISPLAY_BLACK, DISPLAY_HEIGHT, DISPLAY_LOW_SHADE, DISPLAY_MID_SHADE,
    DISPLAY_VLOW_SHADE, DISPLAY_WHITE, DISPLAY_WIDTH,
};
use steering_wheel::ui::DriveState;

fn frame(d: &Ssd1322Display) -> Vec<u8> {
    let mut out = Vec::new();
    for y in 0..DISPLAY_HEIGHT {
        for x in 0..DISPLAY_WIDTH {
            out.push(d.pixel(x, y));
        }
    }
    out
}

#[test]
fn gauge_without_elapsed_time_has_no_fill() {
    let mut d = Ssd1322Display::new();
    d.write_timeout(0);
    // inside the box, left of the label, nothing is drawn
    for x in 51..62 {
        for y in 53..61 {
            assert_eq!(d.pixel(x, y), DISPLAY_BLACK, "pixel {},{}", x, y);
        }
    }
    // the box itself is there
    assert_eq!(d.pixel(50, 52), DISPLAY_WHITE);
    assert_eq!(d.pixel(79, 61), DISPLAY_WHITE);
}

#[test]
fn gauge_fill_is_proportional() {
    let mut d = Ssd1322Display::new();
    // half of the 300 ms timeout: the fill ends at column 50 + 15
    d.write_timeout(150);
    assert_eq!(d.pixel(51, 53), DISPLAY_MID_SHADE);
    assert_eq!(d.pixel(61, 60), DISPLAY_MID_SHADE);
    assert_eq!(d.pixel(64, 60), DISPLAY_MID_SHADE);
    assert_eq!(d.pixel(65, 60), DISPLAY_BLACK);
    let mut e = Ssd1322Display::new();
    e.write_bms_timeout(500);
    assert_eq!(e.pixel(94, 60), DISPLAY_MID_SHADE);
    assert_eq!(e.pixel(95, 60), DISPLAY_BLACK);
}

#[test]
fn dead_gauge_is_the_same_however_late() {
    let mut at_timeout = Ssd1322Display::new();
    at_timeout.write_timeout(300);
    let mut much_later = Ssd1322Display::new();
    much_later.write_timeout(4_000_000_000);
    assert_eq!(frame(&at_timeout), frame(&much_later));
    // dimmed fill, with the cross drawn over it
    assert_eq!(at_timeout.pixel(52, 58), DISPLAY_VLOW_SHADE);
    assert_eq!(at_timeout.pixel(51, 52), DISPLAY_WHITE);
    assert_eq!(at_timeout.pixel(53, 53), DISPLAY_MID_SHADE);
    assert_eq!(at_timeout.pixel(53, 61), DISPLAY_WHITE);
    assert_eq!(at_timeout.pixel(56, 54), DISPLAY_MID_SHADE);
    let mut live = Ssd1322Display::new();
    live.write_timeout(299);
    assert_ne!(frame(&live), frame(&at_timeout));
}

#[test]
fn drive_state_highlights_the_active_letter() {
    let mut d = Ssd1322Display::new();
    d.write_drive_state(DriveState::Cruise);
    // 'C' cell starts at column 190; its top-left corner font cell is unlit,
    // so it shows the highlight background
    assert_eq!(d.pixel(190, 48), DISPLAY_MID_SHADE);
    // 'D' cell: the lit top-left corner is dim, not black
    assert_eq!(d.pixel(170, 48), DISPLAY_LOW_SHADE);
    // 'C' lit cell is black on the highlight
    assert_eq!(d.pixel(192, 48), DISPLAY_BLACK);
}

#[test]
fn indicator_shades_follow_enable_and_engage() {
    let mut d = Ssd1322Display::new();
    d.write_regen(false, true, false);
    assert_eq!(d.pixel(0, 16), DISPLAY_VLOW_SHADE);
    d.write_regen(true, true, true);
    assert_eq!(d.pixel(0, 16), DISPLAY_WHITE);
    assert_eq!(d.pixel(1, 15), DISPLAY_WHITE);
    d.write_regen(true, false, false);
    assert_eq!(d.pixel(0, 16), DISPLAY_MID_SHADE);
    assert_eq!(d.pixel(1, 15), DISPLAY_BLACK);
    d.write_throttle(true, false, true);
    assert_eq!(d.pixel(10, 16), DISPLAY_MID_SHADE);
    assert_eq!(d.pixel(9, 15), DISPLAY_WHITE);
}

#[test]
fn speed_ignores_direction() {
    let mut forward = Ssd1322Display::new();
    forward.write_speed(42);
    let mut backward = Ssd1322Display::new();
    backward.write_speed(-42);
    assert_eq!(frame(&forward), frame(&backward));
    let mut other = Ssd1322Display::new();
    other.write_speed(41);
    assert_ne!(frame(&forward), frame(&other));
}

#[test]
fn lock_and_arrows() {
    let mut d = Ssd1322Display::new();
    d.write_lock(true);
    assert_eq!(d.pixel(0, 48), DISPLAY_WHITE);
    assert_eq!(d.pixel(4, 43), DISPLAY_WHITE);
    assert_eq!(d.pixel(4, 52), DISPLAY_BLACK);
    d.write_left_signal(true);
    assert_eq!(d.pixel(0, 6), DISPLAY_WHITE);
    assert_eq!(d.pixel(4, 2), DISPLAY_WHITE);
    assert_eq!(d.pixel(0, 5), DISPLAY_BLACK);
    d.write_right_signal(false);
    assert_eq!(d.pixel(252, 6), DISPLAY_LOW_SHADE);
    assert_eq!(d.pixel(247, 8), DISPLAY_LOW_SHADE);
    assert_eq!(d.pixel(253, 6), DISPLAY_BLACK);
}

#[test]
fn turn_signals_blink_on_their_period() {
    let mut d = Ssd1322Display::new();
    let (mut left, mut right, mut last) = (false, false, 0u32);
    d.write_turn_signal_state(&mut left, &mut right, &mut last, 500);
    assert!(!left && !right && last == 0);
    assert_eq!(d.pixel(0, 6), DISPLAY_LOW_SHADE);
    d.write_turn_signal_state(&mut left, &mut right, &mut last, 501);
    assert!(left && right && last == 501);
    assert_eq!(d.pixel(0, 6), DISPLAY_WHITE);
    assert_eq!(d.pixel(252, 6), DISPLAY_WHITE);
}

#[test]
fn numeric_fields_render_their_text() {
    let mut a = Ssd1322Display::new();
    a.write_current(-123);
    let mut b = Ssd1322Display::new();
    b.draw_string(130, 0, DISPLAY_WHITE, DISPLAY_BLACK, b" 12.3A");
    assert_eq!(frame(&a), frame(&b));

    let mut a = Ssd1322Display::new();
    a.write_high_voltage(1200);
    let mut b = Ssd1322Display::new();
    b.draw_string(130, 16, DISPLAY_WHITE, DISPLAY_BLACK, b"120.0v");
    assert_eq!(frame(&a), frame(&b));

    let mut a = Ssd1322Display::new();
    a.write_pedal_value(55, 812);
    let mut b = Ssd1322Display::new();
    b.draw_string(80, 0, DISPLAY_WHITE, DISPLAY_BLACK, b"Ped:  5.5");
    b.draw_string(40, 16, DISPLAY_WHITE, DISPLAY_BLACK, b"RAW Ped:  812");
    assert_eq!(frame(&a), frame(&b));

    let mut a = Ssd1322Display::new();
    a.write_throttle_debug(250, 1024);
    let mut b = Ssd1322Display::new();
    b.draw_string(10, 32, DISPLAY_WHITE, DISPLAY_BLACK, b"Thr:0.250");
    b.draw_string(100, 32, DISPLAY_WHITE, DISPLAY_BLACK, b"RAW:1024");
    assert_eq!(frame(&a), frame(&b));

    let mut a = Ssd1322Display::new();
    a.write_cruise_speed(false, 35);
    let mut b = Ssd1322Display::new();
    b.draw_string(140, 48, DISPLAY_LOW_SHADE, DISPLAY_BLACK, b"35");
    assert_eq!(frame(&a), frame(&b));

    let mut a = Ssd1322Display::new();
    a.write_debug();
    let mut b = Ssd1322Display::new();
    b.draw_string(0, 0, DISPLAY_WHITE, DISPLAY_BLACK, b"Debug");
    assert_eq!(frame(&a), frame(&b));
}
