//! Conversion of analog samples to millivolts against the internal
//! voltage reference.

use vstd::prelude::*;

verus! {

/// The internal reference voltage, in millivolts.
pub const VREFINT_MV: u32 = 1212;

/// The voltage of a sample, in millivolts, given the sample of the internal
/// reference taken in the same conversion; the result is truncated to 16
/// bits.
pub fn measured_millivolts(measured: u16, vrefint: u16) -> (r: u16)
    requires
        vrefint > 0,
    ensures
        r == ((measured as int * VREFINT_MV as int / vrefint as int) as u16),
{
    assert(measured as int * VREFINT_MV as int <= u32::MAX as int) by (nonlinear_arith)
        requires
            measured <= u16::MAX,
    ;
    ((measured as u32) * VREFINT_MV / (vrefint as u32)) as u16
}

} // verus!
