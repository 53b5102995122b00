use steering_wheel::framebuffer::{Ssd1322Display, DISPLAY_HEIGHT, DISPLAY_WIDTH};
use steering_wheel::panel::{flush_epilogue, flush_preamble, init_sequence, BusStep};
use steering_wheel::screen::{render_screen, DisplayState, VehicleState, MAIN_SCREEN};
use steering_wheel::telemetry::TelemetryMessage;
use steering_wheel::usb::default_usb_info;

fn frame(d: &Ssd1322Display) -> Vec<u8> {
    let mut out = Vec::new();
    for y in 0..DISPLAY_HEIGHT {
        for x in 0..DISPLAY_WIDTH {
            out.push(d.pixel(x, y));
        }
    }
    out
}

fn commands(steps: &[BusStep]) -> Vec<u8> {
    let mut out = Vec::new();
    let mut command_mode = false;
    for s in steps {
        match s {
            BusStep::SetDataCommand(high) => command_mode = !high,
            BusStep::Write(b) if command_mode => out.push(*b),
            _ => {}
        }
    }
    out
}

#[test]
fn unknown_screen_falls_back_to_main_next_cycle() {
    let vehicle = VehicleState::default();
    let mut expected_display = Ssd1322Display::new();
    let mut expected_state = DisplayState::new();
    render_screen(&mut expected_display, &mut expected_state, &vehicle, 100, 50, 50);

    let mut display = Ssd1322Display::new();
    let mut state = DisplayState::new();
    state.current_screen = 99;
    render_screen(&mut display, &mut state, &vehicle, 100, 50, 50);
    assert_eq!(state.current_screen, MAIN_SCREEN);
    assert!(frame(&display).iter().all(|&p| p == 0));
    render_screen(&mut display, &mut state, &vehicle, 100, 50, 50);
    assert_eq!(frame(&display), frame(&expected_display));
    assert!(frame(&display).iter().any(|&p| p != 0));
}

#[test]
fn debug_screen_differs_from_main() {
    let vehicle = VehicleState::default();
    let mut main = Ssd1322Display::new();
    let mut s = DisplayState::new();
    render_screen(&mut main, &mut s, &vehicle, 0, 0, 0);
    let mut debug = Ssd1322Display::new();
    let mut s = DisplayState::new();
    s.current_screen = 1;
    render_screen(&mut debug, &mut s, &vehicle, 0, 0, 0);
    assert_eq!(s.current_screen, 1);
    assert_ne!(frame(&main), frame(&debug));
}

#[test]
fn init_sequence_follows_the_datasheet_order() {
    let steps = init_sequence();
    assert_eq!(
        &steps[..6],
        &[
            BusStep::SetChipSelect(true),
            BusStep::SetReset(false),
            BusStep::DelayMs(1),
            BusStep::SetReset(true),
            BusStep::SetDataCommand(true),
            BusStep::DelayMs(10),
        ]
    );
    assert_eq!(
        commands(&steps),
        vec![
            0xFD, 0xAE, 0xB3, 0xCA, 0xA2, 0xA1, 0xA0, 0xB5, 0xAB, 0xB2, 0xC1, 0xC7, 0xB9, 0xB1,
            0xD1, 0xBB, 0xB6, 0xBE, 0xA6, 0xA9, 0xAF
        ]
    );
    assert_eq!(steps[steps.len() - 1], BusStep::DelayMs(50));
    assert_eq!(
        &steps[6..14],
        &[
            BusStep::SetDataCommand(false),
            BusStep::SetChipSelect(false),
            BusStep::Write(0xFD),
            BusStep::SetChipSelect(true),
            BusStep::SetDataCommand(true),
            BusStep::SetChipSelect(false),
            BusStep::Write(0x12),
            BusStep::SetChipSelect(true),
        ]
    );
}

#[test]
fn flush_framing() {
    let pre = flush_preamble();
    assert_eq!(commands(&pre), vec![0x15, 0x75, 0x5C]);
    assert_eq!(
        &pre[4..9],
        &[
            BusStep::SetDataCommand(true),
            BusStep::SetChipSelect(false),
            BusStep::Write(0x1C),
            BusStep::Write(0x5B),
            BusStep::SetChipSelect(true),
        ]
    );
    assert_eq!(&pre[pre.len() - 2..], &[BusStep::SetDataCommand(true), BusStep::SetChipSelect(false)]);
    assert_eq!(flush_epilogue(), vec![BusStep::SetChipSelect(true)]);
}

#[test]
fn telemetry_record_is_little_endian() {
    let m = TelemetryMessage {
        sequence: 0x04030201,
        timestamp: 0x08070605,
        button_state: 0x0A09,
        throttle: 0x0C0B,
        brake: 0x0E0D,
    };
    assert_eq!(m.to_bytes(), [1, 2, 3, 4, 5, 6, 7, 8, 9, 10, 11, 12, 13, 14, 0, 0]);
    assert_eq!(TelemetryMessage::new().to_bytes(), [0; 16]);
}

#[test]
fn telemetry_samples() {
    let m = TelemetryMessage::broadcast_sample(300, 77);
    assert_eq!((m.sequence, m.timestamp), (300, 77));
    assert_eq!(m.button_state, 44);
    assert_eq!(m.throttle, 30000 % 4096);
    assert_eq!(m.brake, 15000 % 4096);
    let big = TelemetryMessage::broadcast_sample(u32::MAX, 0);
    assert_eq!(big.throttle as u32, u32::MAX.wrapping_mul(100) % 4096);
    let s = TelemetryMessage::steering_sample(5, 9);
    assert_eq!((s.button_state, s.throttle, s.brake), (1, 2048, 0));
}

#[test]
fn usb_identity() {
    let info = default_usb_info();
    assert_eq!((info.vendor_id, info.product_id), (0x16c0, 0x27dd));
    assert_eq!(info.manufacturer, "Stanford Solar Car");
    assert_eq!(info.serial_number, "001");
}
