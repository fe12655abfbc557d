//! Protected identifiers and the enhanced checksum of LIN frames.

use vstd::prelude::*;

verus! {

/// The two parity bits of a 6-bit frame id, in bits 0 and 1: the first is
/// id0 ^ id1 ^ id2 ^ id4, the second !(id1 ^ id3 ^ id4 ^ id5).
pub open spec fn parity_bits(id: u8) -> u8 {
    let even = (id ^ (id >> 1u8) ^ (id >> 2u8) ^ (id >> 4u8)) & 1u8;
    let odd = !((id >> 1u8) ^ (id >> 3u8) ^ (id >> 4u8) ^ (id >> 5u8)) & 1u8;
    even | (odd << 1u8)
}

/// The protected identifier byte of a frame id below 64.
pub open spec fn protect(id: u8) -> u8 {
    id | (parity_bits(id) << 6u8)
}

/// A byte is a valid protected identifier when its two high bits are the
/// parity of its six low bits.
pub open spec fn valid_pid_byte(b: u8) -> bool {
    protect(b & 0x3fu8) == b
}

/// The result of decoding a received byte as a protected identifier: the
/// frame id, or nothing when the parity does not match.
pub open spec fn decode_spec(b: u8) -> Option<u8> {
    if valid_pid_byte(b) {
        Some(b & 0x3fu8)
    } else {
        None
    }
}

/// Eight-bit sum with carry: every time the running sum reaches 256, 255 is
/// taken off it (the carry is added back into the low bit).
pub open spec fn carry_sum(init: nat, data: Seq<u8>) -> nat
    decreases data.len(),
{
    if data.len() == 0 {
        init
    } else {
        let s = carry_sum(init, data.drop_last()) + data.last();
        if s >= 256 {
            (s - 255) as nat
        } else {
            s as nat
        }
    }
}

/// The enhanced checksum of a frame: the inverted carry sum of the protected
/// identifier and the data bytes.
pub open spec fn checksum_of(pid: u8, data: Seq<u8>) -> u8 {
    (255 - carry_sum(pid as nat, data)) as u8
}

/// Relies on lin_bus::PID::from_id: the protected identifier of an id below
/// 64, parity bits computed as in `parity_bits`.
#[verifier::external_body]
fn protected_id(id: u8) -> (r: u8)
    requires
        id < 64,
    ensures
        r == protect(id),
{
    lin_bus::PID::from_id(id).get()
}

/// Relies on lin_bus::checksum: the inverted eight-bit sum with carry over
/// the protected identifier and the data bytes.
#[verifier::external_body]
fn enhanced_checksum(pid: u8, data: &[u8]) -> (r: u8)
    requires
        valid_pid_byte(pid),
    ensures
        r == checksum_of(pid, data@),
{
    lin_bus::checksum(lin_bus::PID::new(pid), data)
}

/// A protected identifier whose parity bits are known to be correct.
#[derive(Clone, Copy, Debug, PartialEq, Eq, Structural)]
pub struct Pid {
    byte: u8,
}

impl View for Pid {
    type V = u8;

    closed spec fn view(&self) -> u8 {
        self.byte
    }
}

impl Pid {
    #[verifier::type_invariant]
    spec fn inv(self) -> bool {
        valid_pid_byte(self.byte)
    }

    /// Decodes a received byte; `None` when its parity bits do not match.
    pub fn decode(b: u8) -> (r: Option<Pid>)
        ensures
            r.is_some() <==> valid_pid_byte(b),
            r matches Some(p) ==> p@ == b,
    {
        let id = b & 0x3f;
        assert(id < 64) by (bit_vector)
            requires
                id == b & 0x3f,
        ;
        if protected_id(id) == b {
            Some(Pid { byte: b })
        } else {
            None
        }
    }

    /// The protected identifier of a frame id below 64.
    pub fn from_id(id: u8) -> (r: Pid)
        requires
            id < 64,
        ensures
            r@ == protect(id),
            r.id() == id,
    {
        let b = protected_id(id);
        proof {
            lemma_protect_decodes(id);
        }
        Pid { byte: b }
    }

    /// The frame id held in the low six bits.
    pub open spec fn id(self) -> u8 {
        self@ & 0x3fu8
    }

    /// The frame id, 0 to 63.
    pub fn get_id(&self) -> (r: u8)
        ensures
            r == self.id(),
            r < 64,
    {
        let b = self.byte;
        let r = b & 0x3f;
        assert(r < 64) by (bit_vector)
            requires
                r == b & 0x3f,
        ;
        r
    }

    /// The byte as it stands on the wire.
    pub fn get(&self) -> (r: u8)
        ensures
            r == self@,
            valid_pid_byte(r),
    {
        proof {
            use_type_invariant(self);
        }
        self.byte
    }
}

/// Encoding an id below 64 gives a valid protected identifier that decodes
/// back to the same id.
pub proof fn lemma_protect_decodes(id: u8)
    requires
        id < 64,
    ensures
        valid_pid_byte(protect(id)),
        decode_spec(protect(id)) == Some(id),
{
    assert(protect((id | (parity_bits(id) << 6u8)) & 0x3fu8) == id | (parity_bits(id) << 6u8))
        by (bit_vector)
        requires
            id < 64,
    ;
    assert((id | (parity_bits(id) << 6u8)) & 0x3fu8 == id) by (bit_vector)
        requires
            id < 64,
    ;
}

/// Decoding succeeds exactly when the two high bits of the byte equal the
/// parity bits computed from its six low bits.
pub proof fn lemma_decode_iff_parity(b: u8)
    ensures
        decode_spec(b).is_some() <==> (b >> 6u8) == parity_bits(b & 0x3fu8),
{
    assert(valid_pid_byte(b) <==> (b >> 6u8) == parity_bits(b & 0x3fu8)) by (bit_vector);
}

/// The enhanced checksum of a frame with the given identifier and data.
pub fn checksum(pid: Pid, data: &[u8]) -> (r: u8)
    ensures
        r == checksum_of(pid@, data@),
{
    enhanced_checksum(pid.get(), data)
}

/// Whether a received checksum byte matches the frame's identifier and data.
pub fn checksum_matches(pid: Pid, data: &[u8], received: u8) -> (r: bool)
    ensures
        r == (checksum_of(pid@, data@) == received),
{
    checksum(pid, data) == received
}

/// The bytes a slave transmits in response: the data followed by the
/// checksum.
pub fn data_with_checksum(pid: Pid, data: &[u8]) -> (r: Vec<u8>)
    requires
        data@.len() <= 8,
    ensures
        r@ == data@.push(checksum_of(pid@, data@)),
{
    let c = checksum(pid, data);
    let mut out: Vec<u8> = Vec::new();
    let mut i: usize = 0;
    while i < data.len()
        invariant
            i <= data@.len(),
            out@ == data@.subrange(0, i as int),
        decreases data@.len() - i,
    {
        out.push(data[i]);
        i += 1;
        proof {
            assert(out@ =~= data@.subrange(0, i as int));
        }
    }
    proof {
        assert(out@ =~= data@);
    }
    out.push(c);
    out
}

/// The plain sum of a sequence of bytes.
pub open spec fn byte_sum(data: Seq<u8>) -> nat
    decreases data.len(),
{
    if data.len() == 0 {
        0
    } else {
        (byte_sum(data.drop_last()) + data.last()) as nat
    }
}

proof fn lemma_carry_sum_mod(init: nat, data: Seq<u8>)
    requires
        1 <= init <= 255,
    ensures
        1 <= carry_sum(init, data) <= 255,
        carry_sum(init, data) % 255 == (init + byte_sum(data)) % 255,
    decreases data.len(),
{
    if data.len() > 0 {
        lemma_carry_sum_mod(init, data.drop_last());
        let c = carry_sum(init, data.drop_last());
        let t = init + byte_sum(data.drop_last());
        let d = data.last() as nat;
        assert((c + d) % 255 == (t + d) % 255) by {
            vstd::arithmetic::div_mod::lemma_add_mod_noop(c as int, d as int, 255);
            vstd::arithmetic::div_mod::lemma_add_mod_noop(t as int, d as int, 255);
        }
        if c + d >= 256 {
            assert(((c + d - 255) as int) % 255 == (c + d) as int % 255) by {
                vstd::arithmetic::div_mod::lemma_mod_sub_multiples_vanish((c + d) as int, 255);
            }
        }
    }
}

proof fn lemma_byte_sum_update(data: Seq<u8>, i: int, x: u8)
    requires
        0 <= i < data.len(),
    ensures
        byte_sum(data.update(i, x)) + data[i] == byte_sum(data) + x,
    decreases data.len(),
{
    let u = data.update(i, x);
    if i < data.len() - 1 {
        assert(u.drop_last() =~= data.drop_last().update(i, x));
        lemma_byte_sum_update(data.drop_last(), i, x);
    } else {
        assert(u.drop_last() =~= data.drop_last());
    }
}

/// A single flipped bit is detected: flipping bit `k` of any data byte, or of
/// the checksum byte, of a frame makes the received checksum disagree with
/// the one computed from the identifier and data.
pub proof fn lemma_single_bit_flip_detected(pid: u8, data: Seq<u8>, i: int, k: u8)
    requires
        valid_pid_byte(pid),
        0 <= i < data.len(),
        k < 8,
    ensures
        checksum_of(pid, data.update(i, data[i] ^ (1u8 << k))) != checksum_of(pid, data),
        checksum_of(pid, data) ^ (1u8 << k) != checksum_of(pid, data),
{
    let c = checksum_of(pid, data);
    let x = data[i];
    let y = x ^ (1u8 << k);
    assert(c ^ (1u8 << k) != c) by (bit_vector)
        requires
            k < 8,
    ;
    assert(1 <= (1u8 << k) <= 128 && (y as int == x + (1u8 << k) || y as int == x - (1u8 << k)))
        by (bit_vector)
        requires
            k < 8,
            y == x ^ (1u8 << k),
    ;
    assert(pid >= 1) by (bit_vector)
        requires
            protect(pid & 0x3fu8) == pid,
    ;
    let flipped = data.update(i, y);
    lemma_carry_sum_mod(pid as nat, data);
    lemma_carry_sum_mod(pid as nat, flipped);
    lemma_byte_sum_update(data, i, y);
    let a = pid + byte_sum(data);
    let b = pid + byte_sum(flipped);
    if checksum_of(pid, flipped) == c {
        assert(carry_sum(pid as nat, flipped) == carry_sum(pid as nat, data));
        assert(a % 255 == b % 255);
        vstd::arithmetic::div_mod::lemma_mod_equivalence(a as int, b as int, 255);
        assert((a - b) % 255 == 0);
        assert(false);
    }
}

} // verus!
