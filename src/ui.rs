//! The dashboard's elements: where each is drawn, in which shades, and from which input.
use vstd::prelude::*;
use crate::framebuffer::{
    box_shapes, paint_all, text_shapes, Shape, Ssd1322Display, DISPLAY_BLACK, DISPLAY_LOW_SHADE,
    DISPLAY_MID_SHADE, DISPLAY_VLOW_SHADE, DISPLAY_WHITE, FONT_SCALE, FONT_WIDTH, LARGE_FONT_SCALE,
};
use crate::text::{abs, fixed_text, format_fixed, format_signed};

verus! {

broadcast use crate::framebuffer::lemma_paint_all_empty;

/// Drive states shown by the D/R/C/N indicator.
#[derive(Debug, Clone, Copy, PartialEq, Eq, Structural)]
pub enum DriveState {
    Drive,
    Reverse,
    Cruise,
    Neutral,
}

/// Position of the state's letter in "DRCN".
pub open spec fn drive_index(d: DriveState) -> int {
    match d {
        DriveState::Drive => 0,
        DriveState::Reverse => 1,
        DriveState::Cruise => 2,
        DriveState::Neutral => 3,
    }
}

/// The letters "DRCN".
pub open spec fn drive_letters() -> Seq<u8> {
    seq![68u8, 82u8, 67u8, 78u8]
}

/// All four letters at row 3 from column 17; the active one in black on mid grey,
/// the others dim on black.
pub open spec fn drive_state_shapes(d: DriveState) -> Seq<Shape> {
    Seq::new(
        4,
        |i: int|
            Shape::Glyph {
                x: 170 + 10 * i,
                y: 48,
                c: drive_letters()[i],
                fg: if i == drive_index(d) {
                    DISPLAY_BLACK
                } else {
                    DISPLAY_LOW_SHADE
                },
                bg: if i == drive_index(d) {
                    DISPLAY_MID_SHADE
                } else {
                    DISPLAY_BLACK
                },
                scale: FONT_SCALE as int,
            },
    )
}

/// Shade of a regen or throttle letter: barely visible when the function is
/// disabled, full white when enabled and engaged, mid grey when enabled and idle.
pub open spec fn indicator_shade(enabled: bool, engaged: bool) -> u8 {
    if !enabled {
        DISPLAY_VLOW_SHADE
    } else if engaged {
        DISPLAY_WHITE
    } else {
        DISPLAY_MID_SHADE
    }
}

/// Shade of the marker pixel of a hardware signal bit.
pub open spec fn bit_shade(bit: bool) -> u8 {
    if bit {
        DISPLAY_WHITE
    } else {
        DISPLAY_BLACK
    }
}

/// 'R' at row 1, column 0, with the hardware-bit marker just above its second column.
pub open spec fn regen_shapes(enabled: bool, engaged: bool, hwbit: bool) -> Seq<Shape> {
    seq![
        Shape::Glyph {
            x: 0,
            y: 16,
            c: 82,
            fg: indicator_shade(enabled, engaged),
            bg: DISPLAY_BLACK,
            scale: FONT_SCALE as int,
        },
        Shape::Rect { x: 1, y: 15, w: 1, h: 1, shade: bit_shade(hwbit) },
    ]
}

/// 'T' at row 1, column 1, with the hardware-bit marker just above and left of it.
pub open spec fn throttle_shapes(enabled: bool, engaged: bool, hwbit: bool) -> Seq<Shape> {
    seq![
        Shape::Glyph {
            x: 10,
            y: 16,
            c: 84,
            fg: indicator_shade(enabled, engaged),
            bg: DISPLAY_BLACK,
            scale: FONT_SCALE as int,
        },
        Shape::Rect { x: 9, y: 15, w: 1, h: 1, shade: bit_shade(hwbit) },
    ]
}

/// The padlock at row 3, column 0: a body and a shackle, white when engaged.
pub open spec fn lock_shapes(engaged: bool) -> Seq<Shape> {
    let shade = if engaged {
        DISPLAY_WHITE
    } else {
        DISPLAY_VLOW_SHADE
    };
    seq![
        Shape::Rect { x: 0, y: 48, w: 10, h: 2, shade },
        Shape::Rect { x: 0, y: 56, w: 10, h: 2, shade },
        Shape::Rect { x: 0, y: 48, w: 2, h: 8, shade },
        Shape::Rect { x: 8, y: 48, w: 2, h: 8, shade },
        Shape::Rect { x: 2, y: 45, w: 2, h: 4, shade },
        Shape::Rect { x: 6, y: 45, w: 2, h: 4, shade },
        Shape::Rect { x: 4, y: 43, w: 2, h: 2, shade },
    ]
}

/// Shade of a turn arrow.
pub open spec fn signal_shade(on: bool) -> u8 {
    if on {
        DISPLAY_WHITE
    } else {
        DISPLAY_LOW_SHADE
    }
}

/// The left arrow in the top-left corner: a body, then a triangular head pointing left.
pub open spec fn left_signal_shapes(on: bool) -> Seq<Shape> {
    seq![Shape::Rect { x: 5, y: 4, w: 4, h: 5, shade: signal_shade(on) }] + Seq::new(
        5,
        |i: int| Shape::Rect { x: i, y: 6 - i, w: 1, h: 2 * i + 1, shade: signal_shade(on) },
    )
}

/// The right arrow in the top-right corner, the mirror image of the left one.
pub open spec fn right_signal_shapes(on: bool) -> Seq<Shape> {
    seq![Shape::Rect { x: 244, y: 4, w: 4, h: 5, shade: signal_shade(on) }] + Seq::new(
        5,
        |i: int| Shape::Rect { x: 252 - i, y: 6 - i, w: 1, h: 2 * i + 1, shade: signal_shade(on) },
    )
}

/// Half-period of the turn signals' blink, in milliseconds.
pub const BLINK_PERIOD_MS: u32 = 500;

/// Whether the blink phase flips at `now`, the last flip having been at `last`
/// (both in milliseconds of a wrapping clock).
pub open spec fn blink_due(last: u32, now: u32) -> bool {
    (if now >= last {
        now - last
    } else {
        now + 4294967296 - last
    }) > BLINK_PERIOD_MS
}

/// Timeout of the vehicle computer's liveness gauge, in milliseconds.
pub const VC_TIMEOUT_MS: u32 = 300;

/// Timeout of the battery system's liveness gauge, in milliseconds.
pub const BMS_TIMEOUT_MS: u32 = 1000;

/// Width of a liveness gauge's box.
pub const GAUGE_WIDTH: usize = 30;

/// Height of a liveness gauge's box.
pub const GAUGE_HEIGHT: usize = 10;

/// Whether the source has been silent for its whole timeout.
pub open spec fn gauge_dead(elapsed: int, timeout: int) -> bool {
    elapsed >= timeout
}

/// `30 * clamp(elapsed / timeout, 0, 1)`, rounded down: where the fill of the bar ends.
pub open spec fn gauge_fill(elapsed: int, timeout: int) -> int {
    if gauge_dead(elapsed, timeout) {
        GAUGE_WIDTH as int
    } else {
        (GAUGE_WIDTH * elapsed) / timeout
    }
}

/// Width of the filled part of the bar, inside the left edge of the box.
pub open spec fn fill_width(elapsed: int, timeout: int) -> int {
    if gauge_fill(elapsed, timeout) >= 1 {
        gauge_fill(elapsed, timeout) - 1
    } else {
        0
    }
}

/// Shade of the bar's fill: dimmed once the source is dead.
pub open spec fn fill_shade(elapsed: int, timeout: int) -> u8 {
    if gauge_dead(elapsed, timeout) {
        DISPLAY_VLOW_SHADE
    } else {
        DISPLAY_MID_SHADE
    }
}

/// The two diagonals across the gauge's box, one pixel per column each.
pub open spec fn cross_shapes(x: int, y: int) -> Seq<Shape> {
    Seq::new(
        60,
        |k: int|
            Shape::Rect {
                x: x + k / 2,
                y: y + if k % 2 == 0 {
                    (k / 2 * 10) / 30
                } else {
                    ((29 - k / 2) * 10) / 30
                },
                w: 1,
                h: 1,
                shade: DISPLAY_MID_SHADE,
            },
    )
}

/// White pixels at the offsets `pts` from (`x`, `y`).
pub open spec fn dot_shapes(x: int, y: int, pts: Seq<(int, int)>) -> Seq<Shape> {
    Seq::new(
        pts.len(),
        |k: int| Shape::Rect { x: x + pts[k].0, y: y + pts[k].1, w: 1, h: 1, shade: DISPLAY_WHITE },
    )
}

/// A liveness gauge at (`x`, `y`): the fill, the cross once dead, the box, then the label.
pub open spec fn gauge_shapes(x: int, y: int, elapsed: int, timeout: int, label: Seq<(int, int)>) -> Seq<
    Shape,
> {
    seq![
        Shape::Rect {
            x: x + 1,
            y: y + 1,
            w: fill_width(elapsed, timeout),
            h: 8,
            shade: fill_shade(elapsed, timeout),
        },
    ] + (if gauge_dead(elapsed, timeout) {
        cross_shapes(x, y)
    } else {
        Seq::empty()
    }) + box_shapes(x, y, GAUGE_WIDTH as int, GAUGE_HEIGHT as int) + dot_shapes(x, y, label)
}

/// The letters "VC" in pixels.
pub open spec fn vc_label() -> Seq<(int, int)> {
    seq![
        (13, 3), (13, 4), (13, 5), (14, 6), (15, 5), (15, 3), (15, 4),
        (18, 4), (18, 5), (19, 3), (19, 6), (20, 3), (20, 6),
    ]
}

/// The letters "BMS" in pixels.
pub open spec fn bms_label() -> Seq<(int, int)> {
    seq![
        (10, 2), (10, 3), (10, 4), (10, 5), (10, 6), (11, 2), (11, 4), (11, 6), (12, 3), (12, 5),
        (14, 2), (14, 3), (14, 4), (14, 5), (14, 6), (15, 3), (16, 2), (16, 3), (16, 4), (16, 5), (16, 6),
        (18, 2), (19, 2), (18, 3), (18, 4), (19, 4), (19, 5), (18, 6), (19, 6),
    ]
}

/// The vehicle computer's gauge, at row 3 from column 5.
pub open spec fn vc_timeout_shapes(elapsed: u32) -> Seq<Shape> {
    gauge_shapes(50, 52, elapsed as int, VC_TIMEOUT_MS as int, vc_label())
}

/// The battery system's gauge, at row 3 from column 8.
pub open spec fn bms_timeout_shapes(elapsed: u32) -> Seq<Shape> {
    gauge_shapes(80, 52, elapsed as int, BMS_TIMEOUT_MS as int, bms_label())
}

/// The ASCII letter 'A'.
pub const ASCII_UPPER_A: u8 = 65;

/// The ASCII letter 'v'.
pub const ASCII_LOWER_V: u8 = 118;

/// Speed, in whole units regardless of direction, two wide in the large font at column 5.
pub open spec fn speed_shapes(speed: i32) -> Seq<Shape> {
    text_shapes(
        50,
        0,
        DISPLAY_WHITE,
        DISPLAY_BLACK,
        fixed_text(false, abs(speed as int) as nat, 0, 2),
        LARGE_FONT_SCALE as int,
    )
}

/// Cruise set speed at row 3, column 14: white when engaged, dim otherwise.
pub open spec fn cruise_speed_shapes(engaged: bool, speed: i32) -> Seq<Shape> {
    text_shapes(
        140,
        48,
        if engaged {
            DISPLAY_WHITE
        } else {
            DISPLAY_LOW_SHADE
        },
        DISPLAY_BLACK,
        fixed_text(false, abs(speed as int) as nat, 0, 2),
        FONT_SCALE as int,
    )
}

/// Battery current magnitude, from tenths of an ampere, as "ddd.dA" at row 0, column 13.
pub open spec fn current_shapes(tenths: i32) -> Seq<Shape> {
    text_shapes(
        130,
        0,
        DISPLAY_WHITE,
        DISPLAY_BLACK,
        fixed_text(false, abs(tenths as int) as nat, 1, 5).push(ASCII_UPPER_A),
        FONT_SCALE as int,
    )
}

/// A voltage, from tenths of a volt, as "ddd.dv" at column 13 of row `row`.
pub open spec fn voltage_shapes(row: int, tenths: i32) -> Seq<Shape> {
    text_shapes(
        130,
        16 * row,
        DISPLAY_WHITE,
        DISPLAY_BLACK,
        fixed_text(tenths < 0, abs(tenths as int) as nat, 1, 5).push(ASCII_LOWER_V),
        FONT_SCALE as int,
    )
}

/// "Debug" at the top-left corner.
pub open spec fn debug_title() -> Seq<u8> {
    seq![68u8, 101u8, 98u8, 117u8, 103u8]
}

/// "Thr:".
pub open spec fn throttle_tag() -> Seq<u8> {
    seq![84u8, 104u8, 114u8, 58u8]
}

/// "Reg:".
pub open spec fn regen_tag() -> Seq<u8> {
    seq![82u8, 101u8, 103u8, 58u8]
}

/// "RAW:".
pub open spec fn raw_tag() -> Seq<u8> {
    seq![82u8, 65u8, 87u8, 58u8]
}

/// "Ped:".
pub open spec fn pedal_tag() -> Seq<u8> {
    seq![80u8, 101u8, 100u8, 58u8]
}

/// "RAW Ped:".
pub open spec fn raw_pedal_tag() -> Seq<u8> {
    seq![82u8, 65u8, 87u8, 32u8, 80u8, 101u8, 100u8, 58u8]
}

/// A processed channel value, from thousandths, then its raw reading, on row `row`.
pub open spec fn channel_debug_shapes(row: int, tag: Seq<u8>, thousandths: i32, raw: nat) -> Seq<
    Shape,
> {
    text_shapes(
        10,
        16 * row,
        DISPLAY_WHITE,
        DISPLAY_BLACK,
        tag + fixed_text(thousandths < 0, abs(thousandths as int) as nat, 3, 0),
        FONT_SCALE as int,
    ) + text_shapes(
        100,
        16 * row,
        DISPLAY_WHITE,
        DISPLAY_BLACK,
        raw_tag() + fixed_text(false, raw, 0, 0),
        FONT_SCALE as int,
    )
}

/// The pedal value, from tenths, at row 0, column 8, and its raw reading at row 1, column 4.
pub open spec fn pedal_value_shapes(tenths: i32, raw: u32) -> Seq<Shape> {
    text_shapes(
        80,
        0,
        DISPLAY_WHITE,
        DISPLAY_BLACK,
        pedal_tag() + fixed_text(tenths < 0, abs(tenths as int) as nat, 1, 5),
        FONT_SCALE as int,
    ) + text_shapes(
        40,
        16,
        DISPLAY_WHITE,
        DISPLAY_BLACK,
        raw_pedal_tag() + fixed_text(false, raw as nat, 0, 5),
        FONT_SCALE as int,
    )
}

/// Ratio, fill and shade of a gauge: no fill at zero elapsed time, and once the
/// timeout has passed, the same dead picture however long ago the source fell silent.
pub proof fn lemma_gauge_ratio(x: int, y: int, e1: int, e2: int, timeout: int, label: Seq<(int, int)>)
    requires
        timeout > 0,
        e1 >= 0,
    ensures
        gauge_fill(e1, timeout) == (GAUGE_WIDTH * (if e1 < timeout { e1 } else { timeout })) / timeout,
        0 <= gauge_fill(e1, timeout) <= GAUGE_WIDTH,
        e1 == 0 ==> fill_width(e1, timeout) == 0,
        gauge_dead(e1, timeout) ==> fill_shade(e1, timeout) == DISPLAY_VLOW_SHADE,
        gauge_dead(e1, timeout) && gauge_dead(e2, timeout) ==> gauge_shapes(x, y, e1, timeout, label)
            == gauge_shapes(x, y, e2, timeout, label),
{
    assert((GAUGE_WIDTH * timeout) / timeout == GAUGE_WIDTH) by (nonlinear_arith)
        requires
            timeout > 0,
    ;
    if e1 < timeout {
        assert(0 <= (GAUGE_WIDTH * e1) / timeout <= GAUGE_WIDTH) by (nonlinear_arith)
            requires
                timeout > 0,
                0 <= e1 < timeout,
        ;
    }
}

impl Ssd1322Display {
    /// Draws the D/R/C/N indicator with `drive_state` highlighted.
    pub fn write_drive_state(&mut self, drive_state: DriveState)
        requires
            old(self).wf(),
        ensures
            final(self).wf(),
            final(self)@ == paint_all(old(self)@, drive_state_shapes(drive_state)),
    {
        let ghost start = self@;
        let ghost shapes = drive_state_shapes(drive_state);
        let active: usize = match drive_state {
            DriveState::Drive => 0,
            DriveState::Reverse => 1,
            DriveState::Cruise => 2,
            DriveState::Neutral => 3,
        };
        let letters: [u8; 4] = [68, 82, 67, 78];
        assert(letters@ =~= drive_letters());
        assert(shapes.take(0) =~= Seq::<Shape>::empty());
        let mut i: usize = 0;
        while i < 4
            invariant
                self.wf(),
                i <= 4,
                active == drive_index(drive_state),
                letters@ == drive_letters(),
                shapes == drive_state_shapes(drive_state),
                self@ == paint_all(start, shapes.take(i as int)),
            decreases 4 - i,
        {
            let fg = if i == active {
                DISPLAY_BLACK
            } else {
                DISPLAY_LOW_SHADE
            };
            let bg = if i == active {
                DISPLAY_MID_SHADE
            } else {
                DISPLAY_BLACK
            };
            self.add_char(
                Ghost(start),
                Ghost(shapes.take(i as int)),
                170 + i * FONT_WIDTH,
                48,
                fg,
                bg,
                letters[i],
            );
            assert(shapes.take(i as int).push(shapes[i as int]) =~= shapes.take(i + 1));
            i = i + 1;
        }
        assert(shapes.take(4) =~= shapes);
    }

    /// Draws the regen indicator and its hardware-bit marker.
    pub fn write_regen(&mut self, enabled: bool, engaged: bool, hwbit: bool)
        requires
            old(self).wf(),
        ensures
            final(self).wf(),
            final(self)@ == paint_all(old(self)@, regen_shapes(enabled, engaged, hwbit)),
    {
        let ghost start = self@;
        let shade = indicator_shade_of(enabled, engaged);
        let ghost done = Seq::<Shape>::empty();
        self.add_char(Ghost(start), Ghost(done), 0, 16, shade, DISPLAY_BLACK, 82);
        let ghost done = done.push(
            Shape::Glyph { x: 0, y: 16, c: 82, fg: shade, bg: DISPLAY_BLACK, scale: FONT_SCALE as int },
        );
        self.add_rect(Ghost(start), Ghost(done), 1, 15, 1, 1, bit_shade_of(hwbit));
        assert(done.push(Shape::Rect { x: 1, y: 15, w: 1, h: 1, shade: bit_shade(hwbit) })
            =~= regen_shapes(enabled, engaged, hwbit));
    }

    /// Draws the throttle indicator and its hardware-bit marker.
    pub fn write_throttle(&mut self, enabled: bool, engaged: bool, hwbit: bool)
        requires
            old(self).wf(),
        ensures
            final(self).wf(),
            final(self)@ == paint_all(old(self)@, throttle_shapes(enabled, engaged, hwbit)),
    {
        let ghost start = self@;
        let shade = indicator_shade_of(enabled, engaged);
        let ghost done = Seq::<Shape>::empty();
        self.add_char(Ghost(start), Ghost(done), 10, 16, shade, DISPLAY_BLACK, 84);
        let ghost done = done.push(
            Shape::Glyph { x: 10, y: 16, c: 84, fg: shade, bg: DISPLAY_BLACK, scale: FONT_SCALE as int },
        );
        self.add_rect(Ghost(start), Ghost(done), 9, 15, 1, 1, bit_shade_of(hwbit));
        assert(done.push(Shape::Rect { x: 9, y: 15, w: 1, h: 1, shade: bit_shade(hwbit) })
            =~= throttle_shapes(enabled, engaged, hwbit));
    }

    /// Draws the padlock, white when `engaged`, barely visible otherwise.
    pub fn write_lock(&mut self, engaged: bool)
        requires
            old(self).wf(),
        ensures
            final(self).wf(),
            final(self)@ == paint_all(old(self)@, lock_shapes(engaged)),
    {
        let ghost start = self@;
        let ghost shapes = lock_shapes(engaged);
        let shade = if engaged {
            DISPLAY_WHITE
        } else {
            DISPLAY_VLOW_SHADE
        };
        assert(shapes.take(0) =~= Seq::<Shape>::empty());
        self.add_rect(Ghost(start), Ghost(shapes.take(0)), 0, 48, 10, 2, shade);
        assert(shapes.take(0).push(shapes[0]) =~= shapes.take(1));
        self.add_rect(Ghost(start), Ghost(shapes.take(1)), 0, 56, 10, 2, shade);
        assert(shapes.take(1).push(shapes[1]) =~= shapes.take(2));
        self.add_rect(Ghost(start), Ghost(shapes.take(2)), 0, 48, 2, 8, shade);
        assert(shapes.take(2).push(shapes[2]) =~= shapes.take(3));
        self.add_rect(Ghost(start), Ghost(shapes.take(3)), 8, 48, 2, 8, shade);
        assert(shapes.take(3).push(shapes[3]) =~= shapes.take(4));
        self.add_rect(Ghost(start), Ghost(shapes.take(4)), 2, 45, 2, 4, shade);
        assert(shapes.take(4).push(shapes[4]) =~= shapes.take(5));
        self.add_rect(Ghost(start), Ghost(shapes.take(5)), 6, 45, 2, 4, shade);
        assert(shapes.take(5).push(shapes[5]) =~= shapes.take(6));
        self.add_rect(Ghost(start), Ghost(shapes.take(6)), 4, 43, 2, 2, shade);
        assert(shapes.take(6).push(shapes[6]) =~= shapes);
    }

    /// Draws one turn arrow as the next shapes of a list; `mirrored` puts it
    /// in the top-right corner pointing right.
    fn add_arrow(
        &mut self,
        Ghost(start): Ghost<Seq<u8>>,
        Ghost(done): Ghost<Seq<Shape>>,
        on: bool,
        mirrored: bool,
    )
        requires
            old(self).wf(),
            old(self)@ == paint_all(start, done),
        ensures
            final(self).wf(),
            final(self)@ == paint_all(
                start,
                done + if mirrored {
                    right_signal_shapes(on)
                } else {
                    left_signal_shapes(on)
                },
            ),
    {
        let ghost arrow = if mirrored {
            right_signal_shapes(on)
        } else {
            left_signal_shapes(on)
        };
        let shade = if on {
            DISPLAY_WHITE
        } else {
            DISPLAY_LOW_SHADE
        };
        assert(arrow.take(0) =~= Seq::<Shape>::empty());
        assert(done + arrow.take(0) =~= done);
        let body_x: usize = if mirrored {
            244
        } else {
            5
        };
        self.add_rect(Ghost(start), Ghost(done), body_x, 4, 4, 5, shade);
        assert(done.push(arrow[0]) =~= done + arrow.take(1));
        let mut i: usize = 0;
        while i < 5
            invariant
                self.wf(),
                i <= 5,
                shade == signal_shade(on),
                arrow == (if mirrored {
                    right_signal_shapes(on)
                } else {
                    left_signal_shapes(on)
                }),
                self@ == paint_all(start, done + arrow.take(i + 1)),
            decreases 5 - i,
        {
            let col: usize = if mirrored {
                252 - i
            } else {
                i
            };
            self.add_rect(Ghost(start), Ghost(done + arrow.take(i + 1)), col, 6 - i, 1, 2 * i + 1, shade);
            assert((done + arrow.take(i + 1)).push(arrow[i + 1]) =~= done + arrow.take(i + 2));
            i = i + 1;
        }
        assert(arrow.take(6) =~= arrow);
    }

    /// Draws the left turn arrow, white when `on`, dim otherwise.
    pub fn write_left_signal(&mut self, on: bool)
        requires
            old(self).wf(),
        ensures
            final(self).wf(),
            final(self)@ == paint_all(old(self)@, left_signal_shapes(on)),
    {
        let ghost start = self@;
        assert(Seq::<Shape>::empty() + left_signal_shapes(on) =~= left_signal_shapes(on));
        self.add_arrow(Ghost(start), Ghost(Seq::empty()), on, false);
    }

    /// Draws the right turn arrow, white when `on`, dim otherwise.
    pub fn write_right_signal(&mut self, on: bool)
        requires
            old(self).wf(),
        ensures
            final(self).wf(),
            final(self)@ == paint_all(old(self)@, right_signal_shapes(on)),
    {
        let ghost start = self@;
        assert(Seq::<Shape>::empty() + right_signal_shapes(on) =~= right_signal_shapes(on));
        self.add_arrow(Ghost(start), Ghost(Seq::empty()), on, true);
    }

    /// Advances the blink phase of both turn signals when more than the blink
    /// period has passed since the last flip, then draws both arrows in their phase.
    pub fn write_turn_signal_state(
        &mut self,
        left_state: &mut bool,
        right_state: &mut bool,
        last_blink: &mut u32,
        current_time: u32,
    )
        requires
            old(self).wf(),
        ensures
            final(self).wf(),
            *final(left_state) == if blink_due(*old(last_blink), current_time) {
                !*old(left_state)
            } else {
                *old(left_state)
            },
            *final(right_state) == if blink_due(*old(last_blink), current_time) {
                !*old(right_state)
            } else {
                *old(right_state)
            },
            *final(last_blink) == if blink_due(*old(last_blink), current_time) {
                current_time
            } else {
                *old(last_blink)
            },
            final(self)@ == paint_all(
                old(self)@,
                left_signal_shapes(*final(left_state)) + right_signal_shapes(*final(right_state)),
            ),
    {
        if current_time.wrapping_sub(*last_blink) > BLINK_PERIOD_MS {
            *left_state = !*left_state;
            *right_state = !*right_state;
            *last_blink = current_time;
        }
        let ghost start = self@;
        assert(Seq::<Shape>::empty() + left_signal_shapes(*left_state) =~= left_signal_shapes(
            *left_state,
        ));
        self.add_arrow(Ghost(start), Ghost(Seq::empty()), *left_state, false);
        self.add_arrow(Ghost(start), Ghost(left_signal_shapes(*left_state)), *right_state, true);
    }
    /// Draws a liveness gauge whose box has its top-left corner at (`x`, `y`).
    fn write_gauge(
        &mut self,
        x: usize,
        y: usize,
        elapsed: u32,
        timeout: u32,
        label: &[(usize, usize)],
        Ghost(pts): Ghost<Seq<(int, int)>>,
    )
        requires
            old(self).wf(),
            timeout > 0,
            x <= 256,
            y <= 64,
            label@.len() == pts.len(),
            forall|k: int|
                0 <= k < pts.len() ==> (#[trigger] label@[k]).0 == pts[k].0 && label@[k].1
                    == pts[k].1 && label@[k].0 < 32 && label@[k].1 < 32,
        ensures
            final(self).wf(),
            final(self)@ == paint_all(
                old(self)@,
                gauge_shapes(x as int, y as int, elapsed as int, timeout as int, pts),
            ),
    {
        let ghost start = self@;
        let ghost e = elapsed as int;
        let ghost t = timeout as int;
        let dead = elapsed >= timeout;
        let fill: u64 = if dead {
            30
        } else {
            (30 * elapsed as u64) / timeout as u64
        };
        assert(fill <= 30) by (nonlinear_arith)
            requires
                dead ==> fill == 30,
                !dead ==> fill == (30 * elapsed) / timeout as int && elapsed < timeout,
                timeout > 0,
        ;
        let width: usize = if fill >= 1 {
            (fill - 1) as usize
        } else {
            0
        };
        let shade = if dead {
            DISPLAY_VLOW_SHADE
        } else {
            DISPLAY_MID_SHADE
        };
        let ghost fill_rect_shape = Shape::Rect {
            x: x + 1,
            y: y + 1,
            w: fill_width(e, t),
            h: 8,
            shade: fill_shade(e, t),
        };
        self.add_rect(Ghost(start), Ghost(Seq::empty()), x + 1, y + 1, width, 8, shade);
        let ghost done = seq![fill_rect_shape];
        assert(Seq::<Shape>::empty().push(fill_rect_shape) =~= done);
        if dead {
            let ghost cross = cross_shapes(x as int, y as int);
            assert(done + cross.take(0) =~= done);
            let mut i: usize = 0;
            while i < 30
                invariant
                    self.wf(),
                    i <= 30,
                    x <= 256,
                    y <= 64,
                    cross == cross_shapes(x as int, y as int),
                    self@ == paint_all(start, done + cross.take(2 * i)),
                decreases 30 - i,
            {
                let y1: usize = (i * 10) / 30;
                let y2: usize = ((29 - i) * 10) / 30;
                let ghost drawn = done + cross.take(2 * i);
                self.add_rect(Ghost(start), Ghost(drawn), x + i, y + y1, 1, 1, DISPLAY_MID_SHADE);
                assert((done + cross.take(2 * i)).push(cross[2 * i]) =~= done + cross.take(2 * i + 1));
                let ghost drawn = done + cross.take(2 * i + 1);
                self.add_rect(Ghost(start), Ghost(drawn), x + i, y + y2, 1, 1, DISPLAY_MID_SHADE);
                assert(drawn.push(cross[2 * i + 1]) =~= done + cross.take(2 * i + 2));
                i = i + 1;
            }
            assert(cross.take(60) =~= cross);
        }
        let ghost done = done + if dead {
            cross_shapes(x as int, y as int)
        } else {
            Seq::<Shape>::empty()
        };
        assert(!dead ==> done =~= seq![fill_rect_shape]);
        self.add_box(Ghost(start), Ghost(done), x, y, GAUGE_WIDTH, GAUGE_HEIGHT);
        let ghost done = done + box_shapes(x as int, y as int, GAUGE_WIDTH as int, GAUGE_HEIGHT as int);
        let ghost dots = dot_shapes(x as int, y as int, pts);
        assert(done + dots.take(0) =~= done);
        let mut k: usize = 0;
        while k < label.len()
            invariant
                self.wf(),
                k <= label@.len(),
                x <= 256,
                y <= 64,
                label@.len() == pts.len(),
                forall|j: int|
                    0 <= j < pts.len() ==> (#[trigger] label@[j]).0 == pts[j].0 && label@[j].1
                        == pts[j].1 && label@[j].0 < 32 && label@[j].1 < 32,
                dots == dot_shapes(x as int, y as int, pts),
                self@ == paint_all(start, done + dots.take(k as int)),
            decreases label@.len() - k,
        {
            let (dx, dy) = label[k];
            let ghost drawn = done + dots.take(k as int);
            self.add_rect(Ghost(start), Ghost(drawn), x + dx, y + dy, 1, 1, DISPLAY_WHITE);
            assert((done + dots.take(k as int)).push(dots[k as int]) =~= done + dots.take(k + 1));
            k = k + 1;
        }
        assert(dots.take(pts.len() as int) =~= dots);
        assert(done + dots =~= gauge_shapes(x as int, y as int, elapsed as int, timeout as int, pts));
    }

    /// Draws the vehicle computer's liveness gauge for `time_since` milliseconds of silence.
    pub fn write_timeout(&mut self, time_since: u32)
        requires
            old(self).wf(),
        ensures
            final(self).wf(),
            final(self)@ == paint_all(old(self)@, vc_timeout_shapes(time_since)),
    {
        let label: [(usize, usize); 13] = [
            (13, 3), (13, 4), (13, 5), (14, 6), (15, 5), (15, 3), (15, 4),
            (18, 4), (18, 5), (19, 3), (19, 6), (20, 3), (20, 6),
        ];
        let ghost pts = vc_label();
        assert(forall|k: int|
            0 <= k < pts.len() ==> (#[trigger] label@[k]).0 == pts[k].0 && label@[k].1 == pts[k].1
                && label@[k].0 < 32 && label@[k].1 < 32);
        self.write_gauge(50, 52, time_since, VC_TIMEOUT_MS, &label, Ghost(pts));
    }

    /// Draws the battery system's liveness gauge for `time_since` milliseconds of silence.
    pub fn write_bms_timeout(&mut self, time_since: u32)
        requires
            old(self).wf(),
        ensures
            final(self).wf(),
            final(self)@ == paint_all(old(self)@, bms_timeout_shapes(time_since)),
    {
        let label: [(usize, usize); 29] = [
            (10, 2), (10, 3), (10, 4), (10, 5), (10, 6), (11, 2), (11, 4), (11, 6), (12, 3), (12, 5),
            (14, 2), (14, 3), (14, 4), (14, 5), (14, 6), (15, 3), (16, 2), (16, 3), (16, 4), (16, 5), (16, 6),
            (18, 2), (19, 2), (18, 3), (18, 4), (19, 4), (19, 5), (18, 6), (19, 6),
        ];
        let ghost pts = bms_label();
        assert(forall|k: int|
            0 <= k < pts.len() ==> (#[trigger] label@[k]).0 == pts[k].0 && label@[k].1 == pts[k].1
                && label@[k].0 < 32 && label@[k].1 < 32);
        self.write_gauge(80, 52, time_since, BMS_TIMEOUT_MS, &label, Ghost(pts));
    }
    /// Draws the speed magnitude, `speed` in whole units.
    pub fn write_speed(&mut self, speed: i32)
        requires
            old(self).wf(),
        ensures
            final(self).wf(),
            final(self)@ == paint_all(old(self)@, speed_shapes(speed)),
    {
        let text = format_fixed(false, magnitude_of(speed), 0, 2);
        self.draw_string_large(50, 0, DISPLAY_WHITE, DISPLAY_BLACK, text.as_slice());
    }

    /// Draws the cruise set speed, `speed` in whole units.
    pub fn write_cruise_speed(&mut self, engaged: bool, speed: i32)
        requires
            old(self).wf(),
        ensures
            final(self).wf(),
            final(self)@ == paint_all(old(self)@, cruise_speed_shapes(engaged, speed)),
    {
        let text = format_fixed(false, magnitude_of(speed), 0, 2);
        let shade = if engaged {
            DISPLAY_WHITE
        } else {
            DISPLAY_LOW_SHADE
        };
        self.draw_string(140, 48, shade, DISPLAY_BLACK, text.as_slice());
    }

    /// Draws the battery current's magnitude, `current` in tenths of an ampere.
    pub fn write_current(&mut self, current: i32)
        requires
            old(self).wf(),
        ensures
            final(self).wf(),
            final(self)@ == paint_all(old(self)@, current_shapes(current)),
    {
        let mut text = format_fixed(false, magnitude_of(current), 1, 5);
        text.push(ASCII_UPPER_A);
        self.draw_string(130, 0, DISPLAY_WHITE, DISPLAY_BLACK, text.as_slice());
    }

    /// Draws the traction battery voltage, `voltage` in tenths of a volt.
    pub fn write_high_voltage(&mut self, voltage: i32)
        requires
            old(self).wf(),
        ensures
            final(self).wf(),
            final(self)@ == paint_all(old(self)@, voltage_shapes(1, voltage)),
    {
        let mut text = format_signed(voltage, 1, 5);
        text.push(ASCII_LOWER_V);
        self.draw_string(130, 16, DISPLAY_WHITE, DISPLAY_BLACK, text.as_slice());
    }

    /// Draws the low-voltage supply, `voltage` in tenths of a volt.
    pub fn write_low_voltage(&mut self, voltage: i32)
        requires
            old(self).wf(),
        ensures
            final(self).wf(),
            final(self)@ == paint_all(old(self)@, voltage_shapes(2, voltage)),
    {
        let mut text = format_signed(voltage, 1, 5);
        text.push(ASCII_LOWER_V);
        self.draw_string(130, 32, DISPLAY_WHITE, DISPLAY_BLACK, text.as_slice());
    }

    /// Draws the debug screen's title.
    pub fn write_debug(&mut self)
        requires
            old(self).wf(),
        ensures
            final(self).wf(),
            final(self)@ == paint_all(
                old(self)@,
                text_shapes(0, 0, DISPLAY_WHITE, DISPLAY_BLACK, debug_title(), FONT_SCALE as int),
            ),
    {
        let title: [u8; 5] = [68, 101, 98, 117, 103];
        assert(title@ =~= debug_title());
        self.draw_string(0, 0, DISPLAY_WHITE, DISPLAY_BLACK, &title);
    }

    /// Draws a processed value and its raw reading on row `row` of the debug screen.
    fn write_channel_debug(&mut self, row: usize, tag: [u8; 4], value: i32, raw: u64)
        requires
            old(self).wf(),
            row < 4,
        ensures
            final(self).wf(),
            final(self)@ == paint_all(
                old(self)@,
                channel_debug_shapes(row as int, tag@, value, raw as nat),
            ),
    {
        let ghost start = self@;
        let mut first: Vec<u8> = Vec::new();
        first.push(tag[0]);
        first.push(tag[1]);
        first.push(tag[2]);
        first.push(tag[3]);
        assert(first@ =~= tag@);
        let mut number = format_signed(value, 3, 0);
        first.append(&mut number);
        let mut second: Vec<u8> = Vec::new();
        second.push(82);
        second.push(65);
        second.push(87);
        second.push(58);
        assert(second@ =~= raw_tag());
        let mut reading = format_fixed(false, raw, 0, 0);
        second.append(&mut reading);
        let ghost first_shapes = text_shapes(
            10,
            16 * row,
            DISPLAY_WHITE,
            DISPLAY_BLACK,
            first@,
            FONT_SCALE as int,
        );
        assert(Seq::<Shape>::empty() + first_shapes =~= first_shapes);
        self.add_text(
            Ghost(start),
            Ghost(Seq::empty()),
            10,
            16 * row,
            DISPLAY_WHITE,
            DISPLAY_BLACK,
            first.as_slice(),
            FONT_SCALE,
        );
        self.add_text(
            Ghost(start),
            Ghost(text_shapes(10, 16 * row, DISPLAY_WHITE, DISPLAY_BLACK, first@, FONT_SCALE as int)),
            100,
            16 * row,
            DISPLAY_WHITE,
            DISPLAY_BLACK,
            second.as_slice(),
            FONT_SCALE,
        );
    }

    /// Draws the throttle channel, `throttle` in thousandths, with its raw reading.
    pub fn write_throttle_debug(&mut self, throttle: i32, raw_throttle: u16)
        requires
            old(self).wf(),
        ensures
            final(self).wf(),
            final(self)@ == paint_all(
                old(self)@,
                channel_debug_shapes(2, throttle_tag(), throttle, raw_throttle as nat),
            ),
    {
        let tag: [u8; 4] = [84, 104, 114, 58];
        assert(tag@ =~= throttle_tag());
        self.write_channel_debug(2, tag, throttle, raw_throttle as u64);
    }

    /// Draws the regen channel, `regen` in thousandths, with its raw reading.
    pub fn write_regen_debug(&mut self, regen: i32, raw_regen: u32)
        requires
            old(self).wf(),
        ensures
            final(self).wf(),
            final(self)@ == paint_all(
                old(self)@,
                channel_debug_shapes(3, regen_tag(), regen, raw_regen as nat),
            ),
    {
        let tag: [u8; 4] = [82, 101, 103, 58];
        assert(tag@ =~= regen_tag());
        self.write_channel_debug(3, tag, regen, raw_regen as u64);
    }

    /// Draws the pedal channel, `pedal` in tenths, with its raw reading.
    pub fn write_pedal_value(&mut self, pedal: i32, raw_pedal: u32)
        requires
            old(self).wf(),
        ensures
            final(self).wf(),
            final(self)@ == paint_all(old(self)@, pedal_value_shapes(pedal, raw_pedal)),
    {
        let ghost start = self@;
        let mut first: Vec<u8> = Vec::new();
        first.push(80);
        first.push(101);
        first.push(100);
        first.push(58);
        assert(first@ =~= pedal_tag());
        let mut number = format_signed(pedal, 1, 5);
        first.append(&mut number);
        let mut second: Vec<u8> = Vec::new();
        second.push(82);
        second.push(65);
        second.push(87);
        second.push(32);
        second.push(80);
        second.push(101);
        second.push(100);
        second.push(58);
        assert(second@ =~= raw_pedal_tag());
        let mut reading = format_fixed(false, raw_pedal as u64, 0, 5);
        second.append(&mut reading);
        let ghost first_shapes = text_shapes(
            80,
            0,
            DISPLAY_WHITE,
            DISPLAY_BLACK,
            first@,
            FONT_SCALE as int,
        );
        assert(Seq::<Shape>::empty() + first_shapes =~= first_shapes);
        self.add_text(
            Ghost(start),
            Ghost(Seq::empty()),
            80,
            0,
            DISPLAY_WHITE,
            DISPLAY_BLACK,
            first.as_slice(),
            FONT_SCALE,
        );
        self.add_text(
            Ghost(start),
            Ghost(text_shapes(80, 0, DISPLAY_WHITE, DISPLAY_BLACK, first@, FONT_SCALE as int)),
            40,
            16,
            DISPLAY_WHITE,
            DISPLAY_BLACK,
            second.as_slice(),
            FONT_SCALE,
        );
    }
}

/// Shade of a regen or throttle letter.
fn indicator_shade_of(enabled: bool, engaged: bool) -> (r: u8)
    ensures
        r == indicator_shade(enabled, engaged),
        r <= 15,
{
    if !enabled {
        DISPLAY_VLOW_SHADE
    } else if engaged {
        DISPLAY_WHITE
    } else {
        DISPLAY_MID_SHADE
    }
}

/// `|v|`, widened so that it always fits.
fn magnitude_of(v: i32) -> (r: u64)
    ensures
        r as int == abs(v as int),
{
    if v < 0 {
        (0 - (v as i64)) as u64
    } else {
        v as u64
    }
}

/// Shade of a hardware-bit marker.
fn bit_shade_of(bit: bool) -> (r: u8)
    ensures
        r == bit_shade(bit),
        r <= 15,
{
    if bit {
        DISPLAY_WHITE
    } else {
        DISPLAY_BLACK
    }
}

} // verus!

