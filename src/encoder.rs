//! Speed-and-direction packets: the wire layout produced by the external
//! encoder, the call into it, and a reference decoder for that layout.
use vstd::prelude::*;
use crate::command::MAX_SPEED;
use dcc_rs::packets::{Direction, SerialiseBuffer, SpeedAndDirection};
use dcc_rs::Error as DccError;

verus! {

/// Number of one-bits in the synchronisation preamble of a packet.
pub const PREAMBLE_BITS: usize = 15;

/// Length in bits of a serialised speed-and-direction packet: preamble,
/// three bytes each led by a zero start bit, and the closing one-bit.
pub const SPEED_PACKET_BITS: usize = 43;

/// Capacity in bits of the encoder's serialisation buffer.
pub const MAX_PACKET_BITS: usize = 52;

/// Reasons the encoder refuses to build a packet.
#[derive(Clone, Copy, Debug, PartialEq, Eq, Structural)]
pub enum EncodeError {
    /// The packet does not fit in the serialisation buffer.
    TooLong,
    /// The address is not a short-mode address (1 to 127).
    InvalidAddress,
    /// The speed step is above the largest one.
    InvalidSpeed,
    /// A bit offset lies outside the buffer.
    InvalidOffset,
    /// A required packet field is missing.
    MissingField,
}

/// Bit `k` (0 is least significant) of `b`.
pub open spec fn bit(b: u8, k: u8) -> bool {
    (b >> k) & 1u8 == 1u8
}

/// The 5-bit speed code of a speed step: 0 for a stop, otherwise the step
/// offset by 3 (codes 1 to 3 are stop and emergency-stop variants).
pub open spec fn speed_code(speed: u8) -> u8 {
    if speed == 0 { 0 } else { (speed + 3) as u8 }
}

/// Instruction byte `01DCSSSS` of a speed-and-direction packet: `D` is the
/// direction, `C` the least significant bit of the speed code and `SSSS`
/// its four upper bits.
pub open spec fn instruction_byte(speed: u8, forward: bool) -> u8 {
    let code = speed_code(speed);
    0x40u8 | (if forward { 0x20u8 } else { 0u8 }) | ((code >> 1u8) & 0x0fu8) | ((code & 1u8) << 4u8)
}

/// Bit `i` of the serialised packet whose address byte is `address` and
/// instruction byte is `instruction`: fifteen one-bits, then address,
/// instruction and their exclusive-or as error byte, each byte sent most
/// significant bit first after a zero start bit, and a final one-bit.
pub open spec fn packet_bit(address: u8, instruction: u8, i: int) -> bool {
    if i < 15 {
        true
    } else if i == 15 || i == 24 || i == 33 {
        false
    } else if i < 24 {
        bit(address, (23 - i) as u8)
    } else if i < 33 {
        bit(instruction, (32 - i) as u8)
    } else if i < 42 {
        bit(address ^ instruction, (41 - i) as u8)
    } else {
        true
    }
}

/// The serialised speed-and-direction packet for `address`, speed step
/// `speed` and direction `forward`.
pub open spec fn speed_packet_bits(address: u8, speed: u8, forward: bool) -> Seq<bool> {
    Seq::new(43, |i: int| packet_bit(address, instruction_byte(speed, forward), i))
}

/// What the encoder returns for the given command.
pub open spec fn encode_result(address: u8, speed: u8, forward: bool) -> Result<Seq<bool>, EncodeError> {
    if address == 0 || address > 127 {
        Err(EncodeError::InvalidAddress)
    } else if speed > MAX_SPEED {
        Err(EncodeError::InvalidSpeed)
    } else {
        Ok(speed_packet_bits(address, speed, forward))
    }
}

/// Relies on dcc_rs's `SpeedAndDirection` builder and `serialise`: the
/// builder refuses an address of 0 or above 127 and then a speed above 28;
/// `serialise` writes the preamble, the address, instruction and error
/// bytes, and the stop bit, and returns the number of bits written.
#[verifier::external_body]
pub(crate) fn encode_speed_and_direction(address: u8, speed: u8, forward: bool) -> (r: Result<Vec<bool>, EncodeError>)
    ensures
        match r {
            Ok(bits) => encode_result(address, speed, forward) == Ok::<Seq<bool>, EncodeError>(bits@),
            Err(e) => encode_result(address, speed, forward) == Err::<Seq<bool>, EncodeError>(e),
        },
{
    let dir = if forward { Direction::Forward } else { Direction::Backward };
    let mut buf = SerialiseBuffer::default();
    let res = SpeedAndDirection::builder().address(address)
        .and_then(|b| b.speed(speed))
        .and_then(|b| b.direction(dir).build().serialise(&mut buf));
    match res {
        Ok(n) => Ok(buf[..n].iter().map(|b| *b).collect()),
        Err(DccError::TooLong) => Err(EncodeError::TooLong),
        Err(DccError::InvalidAddress) => Err(EncodeError::InvalidAddress),
        Err(DccError::InvalidSpeed) => Err(EncodeError::InvalidSpeed),
        Err(DccError::InvalidOffset) => Err(EncodeError::InvalidOffset),
        Err(DccError::MissingField) => Err(EncodeError::MissingField),
    }
}

/// Value of `b` as bit `k` of a byte.
pub open spec fn bit_weight(b: bool, k: u8) -> u8 {
    if b { 1u8 << k } else { 0u8 }
}

/// The byte sent most significant bit first in `bits[start..start + 8]`.
pub open spec fn read_byte(bits: Seq<bool>, start: int) -> u8 {
    bit_weight(bits[start], 7) | bit_weight(bits[start + 1], 6) | bit_weight(bits[start + 2], 5)
        | bit_weight(bits[start + 3], 4) | bit_weight(bits[start + 4], 3) | bit_weight(bits[start + 5], 2)
        | bit_weight(bits[start + 6], 1) | bit_weight(bits[start + 7], 0)
}

/// The bits carry a well-framed three-byte packet whose error byte matches.
pub open spec fn well_framed(bits: Seq<bool>) -> bool {
    &&& bits.len() == 43
    &&& forall|i: int| 0 <= i < 15 ==> #[trigger] bits[i]
    &&& !bits[15] && !bits[24] && !bits[33] && bits[42]
    &&& read_byte(bits, 34) == read_byte(bits, 16) ^ read_byte(bits, 25)
}

/// The speed code carried by an instruction byte.
pub open spec fn code_of(instruction: u8) -> u8 {
    ((instruction & 0x0fu8) << 1u8) | ((instruction >> 4u8) & 1u8)
}

/// The `(address, speed step, forward)` command that `bits` carries, if they
/// hold a speed-and-direction packet that is not an emergency stop.
pub open spec fn decoded(bits: Seq<bool>) -> Option<(u8, u8, bool)> {
    if !well_framed(bits) {
        None
    } else {
        let address = read_byte(bits, 16);
        let instruction = read_byte(bits, 25);
        let code = code_of(instruction);
        if instruction & 0xc0u8 != 0x40u8 || code == 2 || code == 3 {
            None
        } else {
            let speed: u8 = if code <= 1 { 0 } else { (code - 3) as u8 };
            Some((address, speed, instruction & 0x20u8 != 0))
        }
    }
}

fn weight(b: bool, k: u8) -> (r: u8)
    requires
        k < 8,
    ensures
        r == bit_weight(b, k),
{
    if b { 1u8 << k } else { 0u8 }
}

fn read_byte_exec(bits: &Vec<bool>, start: usize) -> (r: u8)
    requires
        start <= 34,
        start + 8 <= bits@.len(),
    ensures
        r == read_byte(bits@, start as int),
{
    weight(bits[start], 7) | weight(bits[start + 1], 6) | weight(bits[start + 2], 5)
        | weight(bits[start + 3], 4) | weight(bits[start + 4], 3) | weight(bits[start + 5], 2)
        | weight(bits[start + 6], 1) | weight(bits[start + 7], 0)
}

/// Reads back the command carried by a serialised speed-and-direction
/// packet; `None` where the bits hold no such packet.
pub fn decode_speed_and_direction(bits: &Vec<bool>) -> (r: Option<(u8, u8, bool)>)
    ensures
        r == decoded(bits@),
{
    if bits.len() != SPEED_PACKET_BITS {
        return None;
    }
    let mut i: usize = 0;
    while i < PREAMBLE_BITS
        invariant
            i <= PREAMBLE_BITS,
            bits@.len() == 43,
            forall|j: int| 0 <= j < i ==> #[trigger] bits@[j],
        decreases PREAMBLE_BITS - i,
    {
        if !bits[i] {
            return None;
        }
        i = i + 1;
    }
    if bits[15] || bits[24] || bits[33] || !bits[42] {
        return None;
    }
    let address = read_byte_exec(bits, 16);
    let instruction = read_byte_exec(bits, 25);
    let check = read_byte_exec(bits, 34);
    if check != address ^ instruction {
        return None;
    }
    let code: u8 = ((instruction & 0x0f) << 1u8) | ((instruction >> 4u8) & 1);
    if instruction & 0xc0 != 0x40 || code == 2 || code == 3 {
        return None;
    }
    let speed: u8 = if code <= 1 { 0 } else { code - 3 };
    Some((address, speed, instruction & 0x20 != 0))
}

proof fn lemma_read_byte_of_bits(b: u8, bits: Seq<bool>, start: int)
    requires
        0 <= start,
        start + 8 <= bits.len(),
        forall|j: int| start <= j < start + 8 ==> #[trigger] bits[j] == bit(b, (7 - (j - start)) as u8),
    ensures
        read_byte(bits, start) == b,
{
    assert(bits[start] == bit(b, 7));
    assert(bits[start + 1] == bit(b, 6));
    assert(bits[start + 2] == bit(b, 5));
    assert(bits[start + 3] == bit(b, 4));
    assert(bits[start + 4] == bit(b, 3));
    assert(bits[start + 5] == bit(b, 2));
    assert(bits[start + 6] == bit(b, 1));
    assert(bits[start + 7] == bit(b, 0));
    assert(b == bit_weight(bit(b, 7), 7) | bit_weight(bit(b, 6), 6) | bit_weight(bit(b, 5), 5)
        | bit_weight(bit(b, 4), 4) | bit_weight(bit(b, 3), 3) | bit_weight(bit(b, 2), 2)
        | bit_weight(bit(b, 1), 1) | bit_weight(bit(b, 0), 0)) by (bit_vector);
}

/// Decoding the packet that the encoder builds for an accepted command gives
/// back its address, speed step and direction.
pub proof fn lemma_encode_decode_round_trip(address: u8, speed: u8, forward: bool)
    requires
        1 <= address <= 127,
        speed <= MAX_SPEED,
    ensures
        encode_result(address, speed, forward) is Ok,
        decoded(encode_result(address, speed, forward)->Ok_0) == Some((address, speed, forward)),
{
    let instruction = instruction_byte(speed, forward);
    let bits = speed_packet_bits(address, speed, forward);
    lemma_read_byte_of_bits(address, bits, 16);
    lemma_read_byte_of_bits(instruction, bits, 25);
    lemma_read_byte_of_bits(address ^ instruction, bits, 34);
    let code = speed_code(speed);
    assert(code <= 31);
    assert(code_of(instruction) == code && instruction & 0xc0u8 == 0x40u8
        && ((instruction & 0x20u8 != 0) == forward)) by (bit_vector)
        requires
            code <= 31,
            instruction == 0x40u8 | (if forward { 0x20u8 } else { 0u8 }) | ((code >> 1u8) & 0x0fu8) | ((code & 1u8) << 4u8);
}

} // verus!
