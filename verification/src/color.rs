//! Colours as integer levels, and the rule that narrows a level to a byte.

use vstd::prelude::*;

verus! {

/// The byte that a colour level becomes.
///
/// A level counts 255ths of full intensity and has already been truncated
/// toward zero. Nothing holds a level to the range of a byte beforehand: one
/// inside that range is stored as it is, and one outside it takes the nearest
/// end, so that 306 (an intensity of 1.2) becomes 255 and every negative
/// level becomes 0.
pub open spec fn channel_of(level: int) -> int {
    if level < 0 {
        0
    } else if level > 255 {
        255
    } else {
        level
    }
}

/// Narrows a colour level to the byte stored in a pixel.
pub fn channel_value(level: i64) -> (byte: u8)
    ensures
        byte == channel_of(level as int),
{
    if level < 0 {
        0
    } else if level > 255 {
        255
    } else {
        level as u8
    }
}

/// A colour: the levels of red, green and blue.
#[derive(Clone, Copy, Debug, PartialEq, Eq)]
pub struct Color {
    pub red: i64,
    pub green: i64,
    pub blue: i64,
}

impl Color {
    /// The red byte of the colour.
    pub open spec fn r_spec(self) -> u8 {
        channel_of(self.red as int) as u8
    }

    /// The green byte of the colour.
    pub open spec fn g_spec(self) -> u8 {
        channel_of(self.green as int) as u8
    }

    /// The blue byte of the colour.
    pub open spec fn b_spec(self) -> u8 {
        channel_of(self.blue as int) as u8
    }

    /// The colour with the given levels.
    pub fn new(red: i64, green: i64, blue: i64) -> (color: Color)
        ensures
            color == (Color { red, green, blue }),
    {
        Color { red, green, blue }
    }

    /// The red level, narrowed to a byte.
    pub fn r(&self) -> (byte: u8)
        ensures
            byte == self.r_spec(),
    {
        channel_value(self.red)
    }

    /// The green level, narrowed to a byte.
    pub fn g(&self) -> (byte: u8)
        ensures
            byte == self.g_spec(),
    {
        channel_value(self.green)
    }

    /// The blue level, narrowed to a byte.
    pub fn b(&self) -> (byte: u8)
        ensures
            byte == self.b_spec(),
    {
        channel_value(self.blue)
    }
}

} // verus!
