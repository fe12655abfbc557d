//! The DS18B20 temperature sensor protocol: the Dallas/Maxim CRC8 and the
//! decoding of the scratchpad.

use vstd::prelude::*;
use crate::onewire::{COMMAND_SKIP_ROM, LOGIC_1_CHAR};

verus! {

/// One bit of the reflected CRC8 (polynomial 0x8C): `bit` holds the data bit
/// in its lowest position.
pub open spec fn crc_shift(crc: u8, bit: u8) -> u8 {
    if (crc ^ bit) & 1u8 == 1u8 {
        (crc >> 1u8) ^ 0x8Cu8
    } else {
        crc >> 1u8
    }
}

/// The first `n` bits of byte `b`, least significant first, shifted into the
/// register `crc`.
pub open spec fn crc_bits(crc: u8, b: u8, n: nat) -> u8
    decreases n,
{
    if n == 0 {
        crc
    } else {
        crc_shift(crc_bits(crc, b, (n - 1) as nat), b >> ((n - 1) as u8))
    }
}

/// A whole byte shifted into the register.
pub open spec fn crc_byte(crc: u8, b: u8) -> u8 {
    crc_shift(
        crc_shift(
            crc_shift(
                crc_shift(
                    crc_shift(
                        crc_shift(crc_shift(crc_shift(crc, b >> 0u8), b >> 1u8), b >> 2u8),
                        b >> 3u8,
                    ),
                    b >> 4u8,
                ),
                b >> 5u8,
            ),
            b >> 6u8,
        ),
        b >> 7u8,
    )
}

/// The Dallas/Maxim CRC8 of a byte sequence, register starting at zero.
pub open spec fn crc8_of(data: Seq<u8>) -> u8
    decreases data.len(),
{
    if data.len() == 0 {
        0
    } else {
        crc_byte(crc8_of(data.drop_last()), data.last())
    }
}

proof fn lemma_crc_bits_byte(crc: u8, b: u8)
    ensures
        crc_bits(crc, b, 8) == crc_byte(crc, b),
{
    reveal_with_fuel(crc_bits, 9);
}

/// The Dallas/Maxim CRC8 (reflected polynomial 0x8C) of `data`.
pub fn crc8(data: &[u8]) -> (r: u8)
    ensures
        r == crc8_of(data@),
{
    let mut crc: u8 = 0;
    let mut i: usize = 0;
    while i < data.len()
        invariant
            i <= data@.len(),
            crc == crc8_of(data@.subrange(0, i as int)),
        decreases data@.len() - i,
    {
        let b = data[i];
        let mut data_byte: u8 = b;
        let ghost start = crc;
        let mut j: u8 = 0;
        assert(b >> 0u8 == b) by (bit_vector);
        while j < 8
            invariant
                j <= 8,
                data_byte == b >> j,
                crc == crc_bits(start, b, j as nat),
            decreases 8 - j,
        {
            let ghost before = crc;
            let temp = (crc ^ data_byte) & 0x01;
            assert((temp != 0) == ((before ^ data_byte) & 1u8 == 1u8)) by (bit_vector)
                requires
                    temp == (before ^ data_byte) & 0x01,
            ;
            crc = crc >> 1;
            if temp != 0 {
                crc = crc ^ 0x8C;
            }
            assert(crc == crc_shift(before, data_byte));
            assert(data_byte >> 1u8 == b >> ((j + 1) as u8)) by (bit_vector)
                requires
                    data_byte == b >> j,
                    j < 8,
            ;
            data_byte = data_byte >> 1;
            j += 1;
        }
        proof {
            lemma_crc_bits_byte(start, b);
            let prefix = data@.subrange(0, i + 1);
            assert(prefix.drop_last() =~= data@.subrange(0, i as int));
        }
        i += 1;
    }
    proof {
        assert(data@.subrange(0, i as int) =~= data@);
    }
    crc
}

proof fn lemma_crc_byte_injective(c1: u8, c2: u8, b1: u8, b2: u8)
    ensures
        c1 == c2 && b1 != b2 ==> crc_byte(c1, b1) != crc_byte(c2, b2),
        c1 != c2 && b1 == b2 ==> crc_byte(c1, b1) != crc_byte(c2, b2),
{
    assert(c1 == c2 && b1 != b2 ==> crc_byte(c1, b1) != crc_byte(c2, b2)) by (bit_vector);
    assert(c1 != c2 && b1 == b2 ==> crc_byte(c1, b1) != crc_byte(c2, b2)) by (bit_vector);
}

/// A single corrupted byte is always detected: replacing any one byte of a
/// sequence with a different value changes its CRC8.
pub proof fn lemma_single_byte_corruption_detected(data: Seq<u8>, i: int, x: u8)
    requires
        0 <= i < data.len(),
        x != data[i],
    ensures
        crc8_of(data.update(i, x)) != crc8_of(data),
    decreases data.len(),
{
    let bad = data.update(i, x);
    if i == data.len() - 1 {
        assert(bad.drop_last() =~= data.drop_last());
        lemma_crc_byte_injective(crc8_of(data.drop_last()), crc8_of(data.drop_last()), x, data[i]);
    } else {
        assert(bad.drop_last() =~= data.drop_last().update(i, x));
        lemma_single_byte_corruption_detected(data.drop_last(), i, x);
        lemma_crc_byte_injective(
            crc8_of(bad.drop_last()),
            crc8_of(data.drop_last()),
            data.last(),
            data.last(),
        );
    }
}

/// Starts a temperature conversion.
pub const FN_CONVERT_T: u8 = 0x44;

/// Reads the scratchpad holding the temperature.
pub const FN_READ_SCRATCHPAD: u8 = 0xBE;

/// Time allowed for a conversion, in milliseconds (the sensor needs 750).
pub const CONVERSION_DELAY_MS: u64 = 1000;

/// The raw temperature in a scratchpad: a little-endian 16-bit two's
/// complement value in units of 1/16 degree.
pub open spec fn raw_of(lo: u8, hi: u8) -> u16 {
    ((hi as u16) << 8u16) | (lo as u16)
}

/// What reading a scratchpad gives: the raw temperature when the CRC8 over
/// all nine bytes is zero, an error otherwise.
pub open spec fn scratchpad_result(data: Seq<u8>) -> Result<u16, ()> {
    if crc8_of(data) == 0 {
        Ok(raw_of(data[0], data[1]))
    } else {
        Err(())
    }
}

/// Checks the CRC8 of a scratchpad and decodes its raw temperature.
pub fn decode_scratchpad(data: &[u8; 9]) -> (r: Result<u16, ()>)
    ensures
        r == scratchpad_result(data@),
{
    if crc8(data.as_slice()) == 0 {
        Ok((data[1] as u16) << 8 | data[0] as u16)
    } else {
        Err(())
    }
}

/// One operation on the One-Wire bus, or the end of a reading.
#[derive(Clone, Copy, Debug, PartialEq, Eq)]
pub enum BusAction {
    /// Send a reset pulse.
    Reset,
    /// Write this byte and read back the byte the line carried.
    Transfer(u8),
    /// Wait this many milliseconds.
    Delay(u64),
    /// The reading is over, with this result.
    Done(Result<u16, ()>),
}

/// Number of bus operations in a reading.
pub const READ_STEPS: usize = 16;

/// Index of the first scratchpad byte among the operations.
pub const FIRST_READ_STEP: usize = 7;

/// The bus operation at each step of a reading: reset, address all devices,
/// start a conversion, wait, reset, address all devices, ask for the
/// scratchpad, then nine reads of one byte each.
pub open spec fn script(step: nat) -> BusAction {
    if step == 0 || step == 4 {
        BusAction::Reset
    } else if step == 1 || step == 5 {
        BusAction::Transfer(COMMAND_SKIP_ROM)
    } else if step == 2 {
        BusAction::Transfer(FN_CONVERT_T)
    } else if step == 3 {
        BusAction::Delay(CONVERSION_DELAY_MS)
    } else if step == 6 {
        BusAction::Transfer(FN_READ_SCRATCHPAD)
    } else {
        BusAction::Transfer(LOGIC_1_CHAR)
    }
}

/// A temperature reading in progress: which step comes next, and the
/// scratchpad bytes read so far.
pub struct TemperatureRead {
    step: usize,
    scratchpad: [u8; 9],
}

impl TemperatureRead {
    /// The index of the next bus operation.
    pub closed spec fn step(&self) -> nat {
        self.step as nat
    }

    /// The scratchpad bytes read so far.
    pub closed spec fn received(&self) -> Seq<u8> {
        if self.step <= FIRST_READ_STEP {
            seq![]
        } else {
            self.scratchpad@.subrange(0, self.step - FIRST_READ_STEP)
        }
    }

    /// At most all operations done.
    pub closed spec fn wf(&self) -> bool {
        self.step <= READ_STEPS
    }

    /// What the reading asks for next.
    pub open spec fn action_spec(&self) -> BusAction {
        if self.step() < READ_STEPS {
            script(self.step())
        } else {
            BusAction::Done(scratchpad_result(self.received()))
        }
    }

    /// A reading at its first step.
    pub fn new() -> (r: TemperatureRead)
        ensures
            r.wf(),
            r.step() == 0,
            r.received() == Seq::<u8>::empty(),
    {
        TemperatureRead { step: 0, scratchpad: [0u8; 9] }
    }

    /// The next bus operation, or the result once all are done.
    pub fn action(&self) -> (r: BusAction)
        requires
            self.wf(),
        ensures
            r == self.action_spec(),
    {
        let step = self.step;
        if step == 0 || step == 4 {
            BusAction::Reset
        } else if step == 1 || step == 5 {
            BusAction::Transfer(COMMAND_SKIP_ROM)
        } else if step == 2 {
            BusAction::Transfer(FN_CONVERT_T)
        } else if step == 3 {
            BusAction::Delay(CONVERSION_DELAY_MS)
        } else if step == 6 {
            BusAction::Transfer(FN_READ_SCRATCHPAD)
        } else if step < READ_STEPS {
            BusAction::Transfer(LOGIC_1_CHAR)
        } else {
            proof {
                assert(self.scratchpad@.subrange(0, 9) =~= self.scratchpad@);
            }
            BusAction::Done(decode_scratchpad(&self.scratchpad))
        }
    }

    /// Records that the current operation is done; `observed` is the byte
    /// read back by a transfer and is kept when it is a scratchpad byte.
    pub fn complete(&mut self, observed: u8)
        requires
            old(self).wf(),
            old(self).step() < READ_STEPS,
        ensures
            final(self).wf(),
            final(self).step() == old(self).step() + 1,
            final(self).received() == (if old(self).step() >= FIRST_READ_STEP {
                old(self).received().push(observed)
            } else {
                old(self).received()
            }),
    {
        let ghost before = self.received();
        if self.step >= FIRST_READ_STEP {
            self.scratchpad[self.step - FIRST_READ_STEP] = observed;
        }
        self.step = self.step + 1;
        proof {
            if old(self).step() >= FIRST_READ_STEP {
                assert(self.received() =~= before.push(observed));
            }
        }
    }
}

} // verus!
