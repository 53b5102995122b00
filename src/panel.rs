//! The four-wire link to the SSD1322 controller, as sequences of line
//! changes, byte writes and pauses for the caller to carry out in order.
use vstd::prelude::*;

verus! {

/// Controller command: unlocks the command set.
pub const CMD_SET_COMMAND_LOCK: u8 = 0xFD;

/// Controller command: display off.
pub const CMD_DISPLAY_OFF: u8 = 0xAE;

/// Controller command: display on.
pub const CMD_DISPLAY_ON: u8 = 0xAF;

/// Controller command: clock divider.
pub const CMD_SET_CLOCK_DIVIDER: u8 = 0xB3;

/// Controller command: multiplex ratio.
pub const CMD_SET_MUX_RATIO: u8 = 0xCA;

/// Controller command: display offset.
pub const CMD_SET_DISPLAY_OFFSET: u8 = 0xA2;

/// Controller command: start line.
pub const CMD_SET_START_LINE: u8 = 0xA1;

/// Controller command: remap and orientation.
pub const CMD_SET_REMAP: u8 = 0xA0;

/// Controller command: GPIO mode.
pub const CMD_SET_GPIO: u8 = 0xB5;

/// Controller command: internal regulator.
pub const CMD_FUNCTION_SELECT: u8 = 0xAB;

/// Controller command: display enhancement A.
pub const CMD_DISPLAY_ENHANCE: u8 = 0xB2;

/// Controller command: contrast current.
pub const CMD_SET_CONTRAST_CURRENT: u8 = 0xC1;

/// Controller command: master current.
pub const CMD_MASTER_CURRENT_CONTROL: u8 = 0xC7;

/// Controller command: default grayscale table.
pub const CMD_SELECT_DEFAULT_GRAYSCALE: u8 = 0xB9;

/// Controller command: phase length.
pub const CMD_SET_PHASE_LENGTH: u8 = 0xB1;

/// Controller command: display enhancement B.
pub const CMD_DISPLAY_ENHANCE_B: u8 = 0xD1;

/// Controller command: precharge voltage.
pub const CMD_SET_PRECHARGE_VOLTAGE: u8 = 0xBB;

/// Controller command: second precharge period.
pub const CMD_SET_SECOND_PRECHARGE_PERIOD: u8 = 0xB6;

/// Controller command: VCOMH.
pub const CMD_SET_VCOMH: u8 = 0xBE;

/// Controller command: normal display mode.
pub const CMD_NORMAL_DISPLAY: u8 = 0xA6;

/// Controller command: exit partial display.
pub const CMD_EXIT_PARTIAL_DISPLAY: u8 = 0xA9;

/// Controller command: column address window.
pub const CMD_SET_COLUMN_ADDR: u8 = 0x15;

/// Controller command: row address window.
pub const CMD_SET_ROW_ADDR: u8 = 0x75;

/// Controller command: write RAM.
pub const CMD_WRITE_RAM: u8 = 0x5C;

/// First segment of the panel's column window.
pub const MIN_SEG: u8 = 0x1C;

/// Last segment of the panel's column window.
pub const MAX_SEG: u8 = 0x5B;

/// Last row of the panel's row window.
pub const MAX_ROW: u8 = 63;

/// One action on the link. Line levels are given as `true` for high; the
/// chip-select and reset lines are active low, and the data/command line is
/// low for a command and high for data.
#[derive(Debug, Clone, Copy, PartialEq, Eq, Structural)]
pub enum BusStep {
    SetDataCommand(bool),
    SetChipSelect(bool),
    SetReset(bool),
    Write(u8),
    DelayMs(u32),
}

/// One command byte, framed by chip select with the select line low.
pub open spec fn command_steps(cmd: u8) -> Seq<BusStep> {
    seq![
        BusStep::SetDataCommand(false),
        BusStep::SetChipSelect(false),
        BusStep::Write(cmd),
        BusStep::SetChipSelect(true),
    ]
}

/// A run of data bytes, framed by chip select with the select line high.
pub open spec fn data_steps(bytes: Seq<u8>) -> Seq<BusStep> {
    seq![BusStep::SetDataCommand(true), BusStep::SetChipSelect(false)] + bytes.map_values(
        |b: u8| BusStep::Write(b),
    ) + seq![BusStep::SetChipSelect(true)]
}

/// The hardware reset that starts bring-up.
pub open spec fn reset_steps() -> Seq<BusStep> {
    seq![
        BusStep::SetChipSelect(true),
        BusStep::SetReset(false),
        BusStep::DelayMs(1),
        BusStep::SetReset(true),
        BusStep::SetDataCommand(true),
        BusStep::DelayMs(10),
    ]
}

/// The whole bring-up: reset, then the controller's settings in the order its
/// datasheet requires, then display on.
pub open spec fn init_steps() -> Seq<BusStep> {
    reset_steps()
        + command_steps(CMD_SET_COMMAND_LOCK)
        + data_steps(seq![0x12u8])
        + command_steps(CMD_DISPLAY_OFF)
        + command_steps(CMD_SET_CLOCK_DIVIDER)
        + data_steps(seq![0x91u8])
        + command_steps(CMD_SET_MUX_RATIO)
        + data_steps(seq![0x3Fu8])
        + command_steps(CMD_SET_DISPLAY_OFFSET)
        + data_steps(seq![0x00u8])
        + command_steps(CMD_SET_START_LINE)
        + data_steps(seq![0x00u8])
        + command_steps(CMD_SET_REMAP)
        + data_steps(seq![0x14u8, 0x11u8])
        + command_steps(CMD_SET_GPIO)
        + data_steps(seq![0x00u8])
        + command_steps(CMD_FUNCTION_SELECT)
        + data_steps(seq![0x01u8])
        + command_steps(CMD_DISPLAY_ENHANCE)
        + data_steps(seq![0xA0u8, 0xFDu8])
        + command_steps(CMD_SET_CONTRAST_CURRENT)
        + data_steps(seq![0xFFu8])
        + command_steps(CMD_MASTER_CURRENT_CONTROL)
        + data_steps(seq![0x0Fu8])
        + command_steps(CMD_SELECT_DEFAULT_GRAYSCALE)
        + command_steps(CMD_SET_PHASE_LENGTH)
        + data_steps(seq![0xE2u8])
        + command_steps(CMD_DISPLAY_ENHANCE_B)
        + data_steps(seq![0x82u8, 0x20u8])
        + command_steps(CMD_SET_PRECHARGE_VOLTAGE)
        + data_steps(seq![0x1Fu8])
        + command_steps(CMD_SET_SECOND_PRECHARGE_PERIOD)
        + data_steps(seq![0x08u8])
        + command_steps(CMD_SET_VCOMH)
        + data_steps(seq![0x07u8])
        + command_steps(CMD_NORMAL_DISPLAY)
        + command_steps(CMD_EXIT_PARTIAL_DISPLAY)
        + seq![BusStep::DelayMs(10)]
        + command_steps(CMD_DISPLAY_ON)
        + seq![BusStep::DelayMs(50)]
}

/// Everything of a frame transfer before the pixel bytes: the column and row
/// windows, the write-RAM command, and the link left selected in data mode.
pub open spec fn flush_preamble_steps() -> Seq<BusStep> {
    command_steps(CMD_SET_COLUMN_ADDR) + data_steps(seq![MIN_SEG, MAX_SEG]) + command_steps(
        CMD_SET_ROW_ADDR,
    ) + data_steps(seq![0u8, MAX_ROW]) + command_steps(CMD_WRITE_RAM) + seq![
        BusStep::SetDataCommand(true),
        BusStep::SetChipSelect(false),
    ]
}

/// What ends a frame transfer: chip select released.
pub open spec fn flush_epilogue_steps() -> Seq<BusStep> {
    seq![BusStep::SetChipSelect(true)]
}

/// Appends the steps that send command `cmd`.
pub fn push_command(steps: &mut Vec<BusStep>, cmd: u8)
    ensures
        final(steps)@ == old(steps)@ + command_steps(cmd),
{
    let ghost prev = steps@;
    steps.push(BusStep::SetDataCommand(false));
    steps.push(BusStep::SetChipSelect(false));
    steps.push(BusStep::Write(cmd));
    steps.push(BusStep::SetChipSelect(true));
    assert(steps@ =~= prev + command_steps(cmd));
}

/// Appends the steps that send `data` as one run.
pub fn push_data(steps: &mut Vec<BusStep>, data: &[u8])
    ensures
        final(steps)@ == old(steps)@ + data_steps(data@),
{
    let ghost prev = steps@;
    steps.push(BusStep::SetDataCommand(true));
    steps.push(BusStep::SetChipSelect(false));
    let mut i: usize = 0;
    while i < data.len()
        invariant
            i <= data@.len(),
            steps@ == prev + seq![BusStep::SetDataCommand(true), BusStep::SetChipSelect(false)]
                + data@.take(i as int).map_values(|b: u8| BusStep::Write(b)),
        decreases data@.len() - i,
    {
        steps.push(BusStep::Write(data[i]));
        assert(data@.take(i + 1).map_values(|b: u8| BusStep::Write(b)) =~= data@.take(
            i as int,
        ).map_values(|b: u8| BusStep::Write(b)).push(BusStep::Write(data@[i as int])));
        i = i + 1;
    }
    steps.push(BusStep::SetChipSelect(true));
    assert(data@.take(data@.len() as int) =~= data@);
    assert(steps@ =~= prev + data_steps(data@));
}

fn push_data1(steps: &mut Vec<BusStep>, a: u8)
    ensures
        final(steps)@ == old(steps)@ + data_steps(seq![a]),
{
    let bytes: [u8; 1] = [a];
    assert(bytes@ =~= seq![a]);
    push_data(steps, &bytes);
}

fn push_data2(steps: &mut Vec<BusStep>, a: u8, b: u8)
    ensures
        final(steps)@ == old(steps)@ + data_steps(seq![a, b]),
{
    let bytes: [u8; 2] = [a, b];
    assert(bytes@ =~= seq![a, b]);
    push_data(steps, &bytes);
}

/// The bring-up sequence of the controller.
pub fn init_sequence() -> (steps: Vec<BusStep>)
    ensures
        steps@ == init_steps(),
{
    let mut steps: Vec<BusStep> = Vec::new();
    steps.push(BusStep::SetChipSelect(true));
    steps.push(BusStep::SetReset(false));
    steps.push(BusStep::DelayMs(1));
    steps.push(BusStep::SetReset(true));
    steps.push(BusStep::SetDataCommand(true));
    steps.push(BusStep::DelayMs(10));
    assert(steps@ =~= reset_steps());
    push_command(&mut steps, CMD_SET_COMMAND_LOCK);
    push_data1(&mut steps, 0x12);
    push_command(&mut steps, CMD_DISPLAY_OFF);
    push_command(&mut steps, CMD_SET_CLOCK_DIVIDER);
    push_data1(&mut steps, 0x91);
    push_command(&mut steps, CMD_SET_MUX_RATIO);
    push_data1(&mut steps, 0x3F);
    push_command(&mut steps, CMD_SET_DISPLAY_OFFSET);
    push_data1(&mut steps, 0x00);
    push_command(&mut steps, CMD_SET_START_LINE);
    push_data1(&mut steps, 0x00);
    push_command(&mut steps, CMD_SET_REMAP);
    push_data2(&mut steps, 0x14, 0x11);
    push_command(&mut steps, CMD_SET_GPIO);
    push_data1(&mut steps, 0x00);
    push_command(&mut steps, CMD_FUNCTION_SELECT);
    push_data1(&mut steps, 0x01);
    push_command(&mut steps, CMD_DISPLAY_ENHANCE);
    push_data2(&mut steps, 0xA0, 0xFD);
    push_command(&mut steps, CMD_SET_CONTRAST_CURRENT);
    push_data1(&mut steps, 0xFF);
    push_command(&mut steps, CMD_MASTER_CURRENT_CONTROL);
    push_data1(&mut steps, 0x0F);
    push_command(&mut steps, CMD_SELECT_DEFAULT_GRAYSCALE);
    push_command(&mut steps, CMD_SET_PHASE_LENGTH);
    push_data1(&mut steps, 0xE2);
    push_command(&mut steps, CMD_DISPLAY_ENHANCE_B);
    push_data2(&mut steps, 0x82, 0x20);
    push_command(&mut steps, CMD_SET_PRECHARGE_VOLTAGE);
    push_data1(&mut steps, 0x1F);
    push_command(&mut steps, CMD_SET_SECOND_PRECHARGE_PERIOD);
    push_data1(&mut steps, 0x08);
    push_command(&mut steps, CMD_SET_VCOMH);
    push_data1(&mut steps, 0x07);
    push_command(&mut steps, CMD_NORMAL_DISPLAY);
    push_command(&mut steps, CMD_EXIT_PARTIAL_DISPLAY);
    let ghost prev = steps@;
    steps.push(BusStep::DelayMs(10));
    assert(prev.push(BusStep::DelayMs(10)) =~= prev + seq![BusStep::DelayMs(10)]);
    push_command(&mut steps, CMD_DISPLAY_ON);
    let ghost prev = steps@;
    steps.push(BusStep::DelayMs(50));
    assert(prev.push(BusStep::DelayMs(50)) =~= prev + seq![BusStep::DelayMs(50)]);
    steps
}

/// The steps of a frame transfer that come before its pixel bytes.
pub fn flush_preamble() -> (steps: Vec<BusStep>)
    ensures
        steps@ == flush_preamble_steps(),
{
    let mut steps: Vec<BusStep> = Vec::new();
    push_command(&mut steps, CMD_SET_COLUMN_ADDR);
    push_data2(&mut steps, MIN_SEG, MAX_SEG);
    push_command(&mut steps, CMD_SET_ROW_ADDR);
    push_data2(&mut steps, 0, MAX_ROW);
    push_command(&mut steps, CMD_WRITE_RAM);
    let ghost prev = steps@;
    steps.push(BusStep::SetDataCommand(true));
    steps.push(BusStep::SetChipSelect(false));
    assert(steps@ =~= prev + seq![BusStep::SetDataCommand(true), BusStep::SetChipSelect(false)]);
    steps
}

/// The steps of a frame transfer that come after its pixel bytes.
pub fn flush_epilogue() -> (steps: Vec<BusStep>)
    ensures
        steps@ == flush_epilogue_steps(),
{
    let mut steps: Vec<BusStep> = Vec::new();
    steps.push(BusStep::SetChipSelect(true));
    assert(steps@ =~= flush_epilogue_steps());
    steps
}

} // verus!
