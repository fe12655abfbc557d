//! Scaling of color values to PWM duty cycles.

use vstd::prelude::*;

verus! {

/// The duty cycle for a color value 0 to 255 on a PWM whose full duty is
/// `max_duty`, rounded down.
pub fn value_to_duty(val: u8, max_duty: u32) -> (r: u32)
    requires
        val as int * max_duty as int <= u32::MAX as int,
    ensures
        r as int == (val as int * max_duty as int) / 255,
{
    (val as u32) * max_duty / 255
}

} // verus!
