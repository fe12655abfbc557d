//! One-Wire over a serial port: the character encoding of reset pulses and
//! bit slots, and the reading back of what the line showed.

use vstd::prelude::*;

verus! {

/// Baud rate during the reset pulse: one bit takes about 104 us.
pub const RESET_BAUDRATE: u32 = 9600;

/// Baud rate during bit slots: one bit takes about 8.7 us.
pub const BAUDRATE: u32 = 115200;

/// Sent at the reset baud rate: the start bit and four low bits give a low
/// pulse of about 520 us.
pub const RESET_PULSE: u8 = 0xF0;

/// A logic 1 slot: only the start bit is low, about 8.7 us. Also the
/// character sent to release the line for a read.
pub const LOGIC_1_CHAR: u8 = 0xFF;

/// A logic 0 slot: the start bit and eight low bits, about 78 us.
pub const LOGIC_0_CHAR: u8 = 0x00;

/// Addresses all devices on the bus.
pub const COMMAND_SKIP_ROM: u8 = 0xCC;

/// The character that carries bit `i` of `byte`.
pub open spec fn slot_char(byte: u8, i: int) -> u8 {
    if (byte >> (i as u8)) & 1u8 == 1u8 {
        LOGIC_1_CHAR
    } else {
        LOGIC_0_CHAR
    }
}

/// The eight characters that transfer `byte`, least significant bit first.
pub open spec fn slots_of(byte: u8) -> Seq<u8> {
    Seq::new(8, |i: int| slot_char(byte, i))
}

/// The byte read back from the first `n` slot characters: bit `i` is set
/// exactly when character `i` came back all high (no device pulled the
/// line low during that slot).
pub open spec fn observed_bits(rx: Seq<u8>, n: nat) -> u8
    decreases n,
{
    if n == 0 {
        0
    } else {
        observed_bits(rx, (n - 1) as nat) | (if rx[n - 1] == 0xFFu8 {
            1u8 << ((n - 1) as u8)
        } else {
            0u8
        })
    }
}

/// The byte read back from eight slot characters.
pub open spec fn observed_byte(rx: Seq<u8>) -> u8 {
    observed_bits(rx, 8)
}

/// Whether the character read back during the reset pulse shows a device
/// answering with its presence pulse: the low four bits stay low and some
/// of the high four bits were pulled low.
pub open spec fn presence_spec(readback: u8) -> bool {
    readback & 0x0Fu8 == 0 && readback & 0xF0u8 != 0xF0u8
}

/// The characters to send, in order, to transfer `byte`.
pub fn slot_chars(byte: u8) -> (r: [u8; 8])
    ensures
        r@ == slots_of(byte),
{
    let mut tx: [u8; 8] = [0u8; 8];
    let mut pos: usize = 0;
    while pos < 8
        invariant
            pos <= 8,
            tx@.len() == 8,
            forall|k: int| 0 <= k < pos ==> tx@[k] == slot_char(byte, k),
        decreases 8 - pos,
    {
        let c = if (byte >> (pos as u8)) & 0x1 == 0x1 {
            LOGIC_1_CHAR
        } else {
            LOGIC_0_CHAR
        };
        tx[pos] = c;
        pos += 1;
    }
    proof {
        assert(tx@ =~= slots_of(byte));
    }
    tx
}

/// The byte that the line carried during eight slots, from the characters
/// read back.
pub fn bus_byte(rx: &[u8; 8]) -> (r: u8)
    ensures
        r == observed_byte(rx@),
{
    let mut bus_byte: u8 = 0;
    let mut pos: usize = 0;
    while pos < 8
        invariant
            pos <= 8,
            rx@.len() == 8,
            bus_byte == observed_bits(rx@, pos as nat),
        decreases 8 - pos,
    {
        if rx[pos] == 0xFF {
            bus_byte = bus_byte | (1u8 << (pos as u8));
        } else {
            assert(bus_byte | 0u8 == bus_byte) by (bit_vector);
        }
        pos += 1;
    }
    bus_byte
}

/// Whether a device answered the reset pulse.
pub fn device_present(readback: u8) -> (r: bool)
    ensures
        r == presence_spec(readback),
{
    !(readback & 0xF != 0 || readback & 0xF0 == 0xF0)
}

/// Loop-back identity: when no device pulls the line low, every character
/// comes back as it was sent, and the byte read back is the byte written.
pub proof fn lemma_loopback(byte: u8)
    ensures
        observed_byte(slots_of(byte)) == byte,
{
    let s = slots_of(byte);
    reveal_with_fuel(observed_bits, 9);
    assert(byte == (0u8 | (if (byte >> 0u8) & 1u8 == 1u8 { 1u8 << 0u8 } else { 0u8 }) | (if (byte
        >> 1u8) & 1u8 == 1u8 {
        1u8 << 1u8
    } else {
        0u8
    }) | (if (byte >> 2u8) & 1u8 == 1u8 {
        1u8 << 2u8
    } else {
        0u8
    }) | (if (byte >> 3u8) & 1u8 == 1u8 {
        1u8 << 3u8
    } else {
        0u8
    }) | (if (byte >> 4u8) & 1u8 == 1u8 {
        1u8 << 4u8
    } else {
        0u8
    }) | (if (byte >> 5u8) & 1u8 == 1u8 {
        1u8 << 5u8
    } else {
        0u8
    }) | (if (byte >> 6u8) & 1u8 == 1u8 {
        1u8 << 6u8
    } else {
        0u8
    }) | (if (byte >> 7u8) & 1u8 == 1u8 {
        1u8 << 7u8
    } else {
        0u8
    }))) by (bit_vector);
    assert(s[0] == 0xFFu8 <==> (byte >> 0u8) & 1u8 == 1u8);
    assert(s[1] == 0xFFu8 <==> (byte >> 1u8) & 1u8 == 1u8);
    assert(s[2] == 0xFFu8 <==> (byte >> 2u8) & 1u8 == 1u8);
    assert(s[3] == 0xFFu8 <==> (byte >> 3u8) & 1u8 == 1u8);
    assert(s[4] == 0xFFu8 <==> (byte >> 4u8) & 1u8 == 1u8);
    assert(s[5] == 0xFFu8 <==> (byte >> 5u8) & 1u8 == 1u8);
    assert(s[6] == 0xFFu8 <==> (byte >> 6u8) & 1u8 == 1u8);
    assert(s[7] == 0xFFu8 <==> (byte >> 7u8) & 1u8 == 1u8);
}

} // verus!
