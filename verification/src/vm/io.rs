//! The two devices of the machine.

use vstd::prelude::*;
use crate::decimal::{parse_decimal, parse_u32};

verus! {

/// A device that an `IN` or `OUT` instruction names by its number.
#[derive(Debug, PartialEq, Eq, Structural, Clone, Copy)]
pub enum Device {
    /// The display, number 0: output only.
    CRT,
    /// The keyboard, number 1: input only.
    Keyboard,
}

impl Device {
    /// The device with the given number, if there is one.
    pub open spec fn spec_from_u32(number: u32) -> Option<Device> {
        if number == 0 {
            Some(Device::CRT)
        } else if number == 1 {
            Some(Device::Keyboard)
        } else {
            None
        }
    }

    /// The device with the given number, if there is one.
    pub fn from_u32(number: u32) -> (device: Option<Device>)
        ensures
            device == Device::spec_from_u32(number),
    {
        match number {
            0 => Some(Device::CRT),
            1 => Some(Device::Keyboard),
            _ => None,
        }
    }
}

/// The word that a line typed at the keyboard stands for, if it is an
/// unsigned decimal number that fits a word.
pub open spec fn keyboard_value(line: Seq<u8>) -> Option<u32> {
    match parse_decimal(line, u32::MAX as nat) {
        Some(value) => Some(value as u32),
        None => None,
    }
}

/// Reads the word typed on one keyboard line, given without its line end.
/// `None` asks for the line to be typed again.
pub fn parse_keyboard(line: &[u8]) -> (value: Option<u32>)
    ensures
        value == keyboard_value(line@),
{
    parse_u32(line)
}

} // verus!
