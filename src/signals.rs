//! Values that the LIN engine hands to the tasks driving the lights.

use vstd::prelude::*;

verus! {

/// A color for the RGB light.
#[derive(Clone, Copy, Debug, PartialEq, Eq, Structural)]
pub struct Rgb {
    pub r: u8,
    pub g: u8,
    pub b: u8,
}

/// A command received from the LIN master, to be published to the light
/// tasks.
#[derive(Clone, Copy, Debug, PartialEq, Eq)]
pub enum Command {
    /// Set the RGB light to this color.
    Color(Rgb),
    /// Switch the four indicator lights after the low four bits of this
    /// command byte.
    Leds(u8),
}

} // verus!
