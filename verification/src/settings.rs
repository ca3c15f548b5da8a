//! The fixed command vocabulary: how each high-level setting (sensor
//! resolution, polling frequency, LED state) translates into a command
//! tuple. The tables are a hand-derived protocol description for this
//! device family and are not configurable.

use vstd::prelude::*;
use crate::command::Command;

verus! {

/// Command group selecting the "set" functional area.
pub const CMD_SET: u16 = 0x0300;

/// Request code for sensor resolution.
pub const REQ_DPI: u16 = 0x0104;

/// Request code for the indicator LEDs.
pub const REQ_LED: u16 = 0x0003;

/// Request code for the polling frequency.
pub const REQ_FREQ: u16 = 0x0500;

/// A polling frequency the device supports. No other rate is representable.
#[derive(Clone, Copy, Debug)]
pub enum Freq {
    F125,
    F500,
    F1000,
}

/// An indicator LED of the mouse.
#[derive(Clone, Copy, Debug)]
pub enum Led {
    Logo,
    Wheel,
}

/// A resolution the device accepts: 100 to 6400 DPI in steps of 100.
pub open spec fn valid_res(res: int) -> bool {
    100 <= res <= 6400 && res % 100 == 0
}

/// The device-internal scaled form of a resolution.
pub open spec fn res_scaled(res: int) -> int {
    (res / 100 - 1) * 4
}

/// Argument-0 for a resolution command: the scaled value replicated into
/// both halves of the 16-bit field, a fixed quirk of this device.
pub open spec fn res_arg0(scaled: u16) -> u16 {
    scaled | (scaled << 8)
}

/// Checks that a resolution is one the device accepts.
pub fn is_valid_res(res: i32) -> (ok: bool)
    ensures
        ok == valid_res(res as int),
{
    if res < 100 {
        return false;
    }
    let r: u32 = res as u32;
    r <= 6400 && r % 100 == 0
}

/// The command issued for a resolution setting: the fixed group/request
/// pair for DPI, the replicated scaled value in argument-0, and footer 0x06.
pub fn res_command(res: i32) -> (c: Command)
    requires
        valid_res(res as int),
    ensures
        c.group == CMD_SET,
        c.request == REQ_DPI,
        c.arg0 == res_arg0(res_scaled(res as int) as u16),
        c.arg1 == 0,
        c.footer == 0x06,
{
    let r: u32 = res as u32;
    let scaled32: u32 = (r / 100 - 1) * 4;
    let scaled: u16 = scaled32 as u16;
    Command {
        group: CMD_SET,
        request: REQ_DPI,
        arg0: scaled | (scaled << 8),
        arg1: 0,
        footer: 0x06,
    }
}

/// Argument-0 of a frequency command.
pub open spec fn freq_arg0(f: Freq) -> u16 {
    match f {
        Freq::F125 => 8,
        Freq::F500 => 2,
        Freq::F1000 => 1,
    }
}

/// Footer byte of a frequency command.
pub open spec fn freq_footer(f: Freq) -> u8 {
    match f {
        Freq::F125 => 0x0C,
        Freq::F500 => 0x06,
        Freq::F1000 => 0x05,
    }
}

/// The command issued for a polling-frequency setting, from the fixed
/// table: 125 Hz -> (8, 0x0C), 500 Hz -> (2, 0x06), 1000 Hz -> (1, 0x05).
pub fn freq_command(f: Freq) -> (c: Command)
    ensures
        c.group == CMD_SET,
        c.request == REQ_FREQ,
        c.arg0 == freq_arg0(f),
        c.arg1 == 0,
        c.footer == freq_footer(f),
{
    let (arg0, footer): (u16, u8) = match f {
        Freq::F125 => (8, 0x0C),
        Freq::F500 => (2, 0x06),
        Freq::F1000 => (1, 0x05),
    };
    Command { group: CMD_SET, request: REQ_FREQ, arg0, arg1: 0, footer }
}

/// Argument-0 of an LED command: which LED is addressed.
pub open spec fn led_arg0(led: Led) -> u16 {
    match led {
        Led::Logo => 0x0401,
        Led::Wheel => 0x0101,
    }
}

/// Argument-1 of an LED command: the requested state.
pub open spec fn led_arg1(state: bool) -> u16 {
    if state {
        1
    } else {
        0
    }
}

/// Footer byte of an LED command.
pub open spec fn led_footer(led: Led, state: bool) -> u8 {
    match led {
        Led::Logo => if state {
            0x04
        } else {
            0x05
        },
        Led::Wheel => if state {
            0x01
        } else {
            0x00
        },
    }
}

/// The command issued for an LED setting, from the fixed table:
/// logo-on -> (0x0401, 1, 0x04), logo-off -> (0x0401, 0, 0x05),
/// wheel-on -> (0x0101, 1, 0x01), wheel-off -> (0x0101, 0, 0x00).
pub fn led_command(led: Led, state: bool) -> (c: Command)
    ensures
        c.group == CMD_SET,
        c.request == REQ_LED,
        c.arg0 == led_arg0(led),
        c.arg1 == led_arg1(state),
        c.footer == led_footer(led, state),
{
    let (arg0, arg1, footer): (u16, u16, u8) = match (led, state) {
        (Led::Logo, true) => (0x0401, 1, 0x04),
        (Led::Logo, false) => (0x0401, 0, 0x05),
        (Led::Wheel, true) => (0x0101, 1, 0x01),
        (Led::Wheel, false) => (0x0101, 0, 0x00),
    };
    Command { group: CMD_SET, request: REQ_LED, arg0, arg1, footer }
}

} // verus!
