//! What one render cycle draws: the selected screen, from a snapshot of the vehicle.
use vstd::prelude::*;
use crate::framebuffer::{
    lemma_paint_all_concat, paint_all, text_shapes, Shape, Ssd1322Display, DISPLAY_BLACK,
    DISPLAY_BUFFER_SIZE, DISPLAY_WHITE, FONT_SCALE,
};
use crate::ui::{
    blink_due, bms_timeout_shapes, channel_debug_shapes, cruise_speed_shapes, current_shapes,
    debug_title, drive_state_shapes, left_signal_shapes, lock_shapes, pedal_value_shapes,
    regen_shapes, regen_tag, right_signal_shapes, speed_shapes, throttle_shapes, throttle_tag,
    vc_timeout_shapes, voltage_shapes, DriveState,
};

verus! {

broadcast use crate::framebuffer::lemma_paint_all_empty;

/// Index of the main screen.
pub const MAIN_SCREEN: u8 = 0;

/// Index of the debug screen.
pub const DEBUG_SCREEN: u8 = 1;

/// Throttle position, in thousandths, above which the hardware-bit markers light.
pub const PEDAL_BIT_THRESHOLD: i32 = 200;

/// What the renderer keeps from one cycle to the next.
pub struct DisplayState {
    /// The selected screen; an unknown index falls back to the main screen.
    pub current_screen: u8,
    pub left_blink: bool,
    pub right_blink: bool,
    /// When the blink phase last flipped, in milliseconds.
    pub last_blink: u32,
    pub bms_flash: bool,
    pub last_flash: u32,
}

impl DisplayState {
    /// Main screen, both blink phases off, no flip yet.
    pub fn new() -> (r: Self)
        ensures
            r.current_screen == MAIN_SCREEN,
            !r.left_blink,
            !r.right_blink,
            r.last_blink == 0,
            !r.bms_flash,
            r.last_flash == 0,
    {
        Self {
            current_screen: MAIN_SCREEN,
            left_blink: false,
            right_blink: false,
            last_blink: 0,
            bms_flash: false,
            last_flash: 0,
        }
    }
}

/// A snapshot of the vehicle as the dashboard shows it. Speeds are in whole
/// units, current and voltages in tenths, processed pedal channels in
/// thousandths (the pedal value in tenths).
pub struct VehicleState {
    pub drive_mode: DriveState,
    pub left_motor_velocity: i32,
    pub right_motor_velocity: i32,
    pub cruise_enabled: bool,
    pub cruise_speed: i32,
    pub regen_enabled: bool,
    pub brake_pressed: bool,
    pub throttle_enabled: bool,
    pub throttle_pressed: bool,
    pub battery_current: i32,
    pub high_voltage: i32,
    pub low_voltage: i32,
    pub lock_on: bool,
    pub bps_strobe: bool,
    pub throttle_value: i32,
    pub raw_throttle: u16,
    pub regen_value: i32,
    pub raw_regen: u32,
    pub pedal_value: i32,
    pub raw_pedal: u32,
}

impl Default for VehicleState {
    /// Neutral and at rest, regen and throttle enabled, 120.0 V and 12.5 V.
    fn default() -> (r: Self)
        ensures
            r.drive_mode == DriveState::Neutral,
            r.left_motor_velocity == 0 && r.right_motor_velocity == 0,
            !r.cruise_enabled && r.cruise_speed == 0,
            r.regen_enabled && !r.brake_pressed,
            r.throttle_enabled && !r.throttle_pressed,
            r.battery_current == 0,
            r.high_voltage == 1200,
            r.low_voltage == 125,
            !r.lock_on && !r.bps_strobe,
            r.throttle_value == 0 && r.raw_throttle == 0,
            r.regen_value == 0 && r.raw_regen == 0,
            r.pedal_value == 0 && r.raw_pedal == 0,
    {
        Self {
            drive_mode: DriveState::Neutral,
            left_motor_velocity: 0,
            right_motor_velocity: 0,
            cruise_enabled: false,
            cruise_speed: 0,
            regen_enabled: true,
            brake_pressed: false,
            throttle_enabled: true,
            throttle_pressed: false,
            battery_current: 0,
            high_voltage: 1200,
            low_voltage: 125,
            lock_on: false,
            bps_strobe: false,
            throttle_value: 0,
            raw_throttle: 0,
            regen_value: 0,
            raw_regen: 0,
            pedal_value: 0,
            raw_pedal: 0,
        }
    }
}

/// The faster of the two motors.
pub open spec fn top_velocity(v: VehicleState) -> i32 {
    if v.left_motor_velocity >= v.right_motor_velocity {
        v.left_motor_velocity
    } else {
        v.right_motor_velocity
    }
}

/// The main screen, element by element, with the turn arrows in phases `left` and `right`.
pub open spec fn main_screen_shapes(
    v: VehicleState,
    left: bool,
    right: bool,
    time_since_vc: u32,
    time_since_bms: u32,
) -> Seq<Shape> {
    drive_state_shapes(v.drive_mode) + speed_shapes(top_velocity(v)) + left_signal_shapes(left)
        + right_signal_shapes(right) + cruise_speed_shapes(v.cruise_enabled, v.cruise_speed)
        + regen_shapes(v.regen_enabled, v.brake_pressed, v.throttle_value > PEDAL_BIT_THRESHOLD)
        + throttle_shapes(
        v.throttle_enabled,
        v.throttle_pressed,
        v.throttle_value > PEDAL_BIT_THRESHOLD,
    ) + current_shapes(v.battery_current) + voltage_shapes(1, v.high_voltage) + voltage_shapes(
        2,
        v.low_voltage,
    ) + lock_shapes(v.lock_on) + vc_timeout_shapes(time_since_vc) + bms_timeout_shapes(
        time_since_bms,
    )
}

/// The debug screen: both gauges, the three pedal channels, then the title.
pub open spec fn debug_screen_shapes(v: VehicleState, time_since_vc: u32, time_since_bms: u32) -> Seq<
    Shape,
> {
    vc_timeout_shapes(time_since_vc) + bms_timeout_shapes(time_since_bms) + channel_debug_shapes(
        2,
        throttle_tag(),
        v.throttle_value,
        v.raw_throttle as nat,
    ) + channel_debug_shapes(3, regen_tag(), v.regen_value, v.raw_regen as nat)
        + pedal_value_shapes(v.pedal_value, v.raw_pedal) + text_shapes(
        0,
        0,
        DISPLAY_WHITE,
        DISPLAY_BLACK,
        debug_title(),
        FONT_SCALE as int,
    )
}

/// An all-black frame.
pub open spec fn blank_frame() -> Seq<u8> {
    Seq::new(DISPLAY_BUFFER_SIZE as nat, |i: int| 0u8)
}

/// The blink phases after a cycle at `now`.
pub open spec fn next_blink(s: DisplayState, now: u32) -> (bool, bool, u32) {
    if blink_due(s.last_blink, now) {
        (!s.left_blink, !s.right_blink, now)
    } else {
        (s.left_blink, s.right_blink, s.last_blink)
    }
}

/// Draws the main screen's elements in order over the current frame.
fn draw_main_screen(
    display: &mut Ssd1322Display,
    state: &mut DisplayState,
    vehicle: &VehicleState,
    current_time: u32,
    time_since_vc: u32,
    time_since_bms: u32,
)
    requires
        old(display).wf(),
    ensures
        final(display).wf(),
        (final(state).left_blink, final(state).right_blink, final(state).last_blink) == next_blink(
            *old(state),
            current_time,
        ),
        final(state).current_screen == old(state).current_screen,
        final(display)@ == paint_all(
            old(display)@,
            main_screen_shapes(
                *vehicle,
                final(state).left_blink,
                final(state).right_blink,
                time_since_vc,
                time_since_bms,
            ),
        ),
{
    let ghost start = display@;
    display.write_drive_state(vehicle.drive_mode);
    let ghost done = drive_state_shapes(vehicle.drive_mode);
    let max_velocity = if vehicle.left_motor_velocity >= vehicle.right_motor_velocity {
        vehicle.left_motor_velocity
    } else {
        vehicle.right_motor_velocity
    };
    display.write_speed(max_velocity);
    proof {
        lemma_paint_all_concat(start, done, speed_shapes(max_velocity));
    }
    let ghost done = done + speed_shapes(max_velocity);
    display.write_turn_signal_state(
        &mut state.left_blink,
        &mut state.right_blink,
        &mut state.last_blink,
        current_time,
    );
    let ghost signals = left_signal_shapes(state.left_blink) + right_signal_shapes(
        state.right_blink,
    );
    proof {
        lemma_paint_all_concat(start, done, signals);
        assert(done + signals =~= done + left_signal_shapes(state.left_blink) + right_signal_shapes(
            state.right_blink,
        ));
    }
    let ghost done = done + left_signal_shapes(state.left_blink) + right_signal_shapes(
        state.right_blink,
    );
    display.write_cruise_speed(vehicle.cruise_enabled, vehicle.cruise_speed);
    proof {
        lemma_paint_all_concat(
            start,
            done,
            cruise_speed_shapes(vehicle.cruise_enabled, vehicle.cruise_speed),
        );
    }
    let ghost done = done + cruise_speed_shapes(vehicle.cruise_enabled, vehicle.cruise_speed);
    let pedal_bit = vehicle.throttle_value > PEDAL_BIT_THRESHOLD;
    display.write_regen(vehicle.regen_enabled, vehicle.brake_pressed, pedal_bit);
    proof {
        lemma_paint_all_concat(
            start,
            done,
            regen_shapes(vehicle.regen_enabled, vehicle.brake_pressed, pedal_bit),
        );
    }
    let ghost done = done + regen_shapes(vehicle.regen_enabled, vehicle.brake_pressed, pedal_bit);
    display.write_throttle(vehicle.throttle_enabled, vehicle.throttle_pressed, pedal_bit);
    proof {
        lemma_paint_all_concat(
            start,
            done,
            throttle_shapes(vehicle.throttle_enabled, vehicle.throttle_pressed, pedal_bit),
        );
    }
    let ghost done = done + throttle_shapes(
        vehicle.throttle_enabled,
        vehicle.throttle_pressed,
        pedal_bit,
    );
    display.write_current(vehicle.battery_current);
    proof {
        lemma_paint_all_concat(start, done, current_shapes(vehicle.battery_current));
    }
    let ghost done = done + current_shapes(vehicle.battery_current);
    display.write_high_voltage(vehicle.high_voltage);
    proof {
        lemma_paint_all_concat(start, done, voltage_shapes(1, vehicle.high_voltage));
    }
    let ghost done = done + voltage_shapes(1, vehicle.high_voltage);
    display.write_low_voltage(vehicle.low_voltage);
    proof {
        lemma_paint_all_concat(start, done, voltage_shapes(2, vehicle.low_voltage));
    }
    let ghost done = done + voltage_shapes(2, vehicle.low_voltage);
    display.write_lock(vehicle.lock_on);
    proof {
        lemma_paint_all_concat(start, done, lock_shapes(vehicle.lock_on));
    }
    let ghost done = done + lock_shapes(vehicle.lock_on);
    display.write_timeout(time_since_vc);
    proof {
        lemma_paint_all_concat(start, done, vc_timeout_shapes(time_since_vc));
    }
    let ghost done = done + vc_timeout_shapes(time_since_vc);
    display.write_bms_timeout(time_since_bms);
    proof {
        lemma_paint_all_concat(start, done, bms_timeout_shapes(time_since_bms));
    }
}

/// Draws the debug screen's elements in order over the current frame.
fn draw_debug_screen(
    display: &mut Ssd1322Display,
    vehicle: &VehicleState,
    time_since_vc: u32,
    time_since_bms: u32,
)
    requires
        old(display).wf(),
    ensures
        final(display).wf(),
        final(display)@ == paint_all(
            old(display)@,
            debug_screen_shapes(*vehicle, time_since_vc, time_since_bms),
        ),
{
    let ghost start = display@;
    display.write_timeout(time_since_vc);
    let ghost done = vc_timeout_shapes(time_since_vc);
    display.write_bms_timeout(time_since_bms);
    proof {
        lemma_paint_all_concat(start, done, bms_timeout_shapes(time_since_bms));
    }
    let ghost done = done + bms_timeout_shapes(time_since_bms);
    display.write_throttle_debug(vehicle.throttle_value, vehicle.raw_throttle);
    let ghost part = channel_debug_shapes(
        2,
        throttle_tag(),
        vehicle.throttle_value,
        vehicle.raw_throttle as nat,
    );
    proof {
        lemma_paint_all_concat(start, done, part);
    }
    let ghost done = done + part;
    display.write_regen_debug(vehicle.regen_value, vehicle.raw_regen);
    let ghost part = channel_debug_shapes(
        3,
        regen_tag(),
        vehicle.regen_value,
        vehicle.raw_regen as nat,
    );
    proof {
        lemma_paint_all_concat(start, done, part);
    }
    let ghost done = done + part;
    display.write_pedal_value(vehicle.pedal_value, vehicle.raw_pedal);
    proof {
        lemma_paint_all_concat(start, done, pedal_value_shapes(vehicle.pedal_value, vehicle.raw_pedal));
    }
    let ghost done = done + pedal_value_shapes(vehicle.pedal_value, vehicle.raw_pedal);
    display.write_debug();
    proof {
        lemma_paint_all_concat(
            start,
            done,
            text_shapes(0, 0, DISPLAY_WHITE, DISPLAY_BLACK, debug_title(), FONT_SCALE as int),
        );
    }
}

/// One render cycle: clears the frame, then draws the selected screen. An
/// unknown screen index selects the main screen, which the next cycle draws;
/// this cycle's frame stays black.
pub fn render_screen(
    display: &mut Ssd1322Display,
    state: &mut DisplayState,
    vehicle: &VehicleState,
    current_time: u32,
    time_since_vc: u32,
    time_since_bms: u32,
)
    requires
        old(display).wf(),
    ensures
        final(display).wf(),
        old(state).current_screen == MAIN_SCREEN ==> {
            &&& (final(state).left_blink, final(state).right_blink, final(state).last_blink)
                == next_blink(*old(state), current_time)
            &&& final(state).current_screen == MAIN_SCREEN
            &&& final(display)@ == paint_all(
                blank_frame(),
                main_screen_shapes(
                    *vehicle,
                    final(state).left_blink,
                    final(state).right_blink,
                    time_since_vc,
                    time_since_bms,
                ),
            )
        },
        old(state).current_screen == DEBUG_SCREEN ==> {
            &&& *final(state) == *old(state)
            &&& final(display)@ == paint_all(
                blank_frame(),
                debug_screen_shapes(*vehicle, time_since_vc, time_since_bms),
            )
        },
        old(state).current_screen != MAIN_SCREEN && old(state).current_screen != DEBUG_SCREEN ==> {
            &&& *final(state) == (DisplayState { current_screen: MAIN_SCREEN, ..*old(state) })
            &&& final(display)@ == blank_frame()
        },
{
    display.clear();
    if state.current_screen == MAIN_SCREEN {
        draw_main_screen(display, state, vehicle, current_time, time_since_vc, time_since_bms);
    } else if state.current_screen == DEBUG_SCREEN {
        draw_debug_screen(display, vehicle, time_since_vc, time_since_bms);
    } else {
        state.current_screen = MAIN_SCREEN;
    }
}

} // verus!
