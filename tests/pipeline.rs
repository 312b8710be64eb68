use dcc_controller::command::{DeviceState, MAX_SPEED};
use dcc_controller::consumer::{consumer_cycle, ConsumerState};
use dcc_controller::encoder::{decode_speed_and_direction, EncodeError, SPEED_PACKET_BITS};
use dcc_controller::handoff::HandoffSlot;
use dcc_controller::producer::{build_packet, producer_cycle};
use dcc_controller::pulse::{
    idle_pulses, packet_pulses, pulse_for_bit, PulseCode, IDLE_ZERO_BITS, ONE_HALF_PERIOD_US,
    ZERO_HALF_PERIOD_US,
};

fn byte_bits(b: u8) -> Vec<bool> {
    (0..8).map(|k| (b >> (7 - k)) & 1 == 1).collect()
}

fn expected_packet(address: u8, instruction: u8) -> Vec<bool> {
    let mut v = vec![true; 15];
    v.push(false);
    v.extend(byte_bits(address));
    v.push(false);
    v.extend(byte_bits(instruction));
    v.push(false);
    v.extend(byte_bits(address ^ instruction));
    v.push(true);
    v
}

fn state(address: u8, speed: i8) -> DeviceState {
    let mut s = DeviceState::new();
    s.set_address(address);
    s.set_speed(speed);
    s
}

#[test]
fn stopped_locomotive_packet_is_transmitted_and_slot_empties() {
    let s = state(3, 0);
    let mut slot: HandoffSlot<Vec<bool>> = HandoffSlot::new();
    assert_eq!(producer_cycle(&s, &mut slot), Ok(true));
    assert!(!slot.is_empty());
    let t = consumer_cycle(&mut slot);
    assert_eq!(t.state, ConsumerState::Draining);
    let bits = expected_packet(3, 0x40);
    assert_eq!(bits.len(), SPEED_PACKET_BITS);
    let expected: Vec<PulseCode> = bits
        .iter()
        .map(|b| pulse_for_bit(*b))
        .chain(std::iter::once(PulseCode::end()))
        .collect();
    assert_eq!(t.pulses, expected);
    assert!(slot.is_empty());
}

#[test]
fn direction_flips_and_magnitude_stays_when_speed_changes_sign() {
    let mut s = state(3, 0);
    let mut slot: HandoffSlot<Vec<bool>> = HandoffSlot::new();
    s.set_speed(5);
    assert_eq!(producer_cycle(&s, &mut slot), Ok(true));
    let forward = slot.take().unwrap();
    s.set_speed(-5);
    assert_eq!(producer_cycle(&s, &mut slot), Ok(true));
    let backward = slot.take().unwrap();
    assert_eq!(forward, expected_packet(3, 0x64));
    assert_eq!(backward, expected_packet(3, 0x44));
    assert_eq!(decode_speed_and_direction(&forward), Some((3, 5, true)));
    assert_eq!(decode_speed_and_direction(&backward), Some((3, 5, false)));
    // the direction bit of the instruction byte is the only difference in it
    assert_ne!(forward[27], backward[27]);
}

#[test]
fn stalled_producer_then_idle_fallback() {
    let s = state(3, 7);
    let mut slot: HandoffSlot<Vec<bool>> = HandoffSlot::new();
    let held = build_packet(&s).unwrap();
    assert!(slot.try_put(held.clone()));
    for _ in 0..4 {
        assert_eq!(producer_cycle(&s, &mut slot), Ok(false));
    }
    let first = consumer_cycle(&mut slot);
    assert_eq!(first.state, ConsumerState::Draining);
    assert_eq!(first.pulses, packet_pulses(&held));
    let idle = consumer_cycle(&mut slot);
    assert_eq!(idle.state, ConsumerState::Idle);
    assert_eq!(idle.pulses, idle_pulses());
    assert_eq!(producer_cycle(&s, &mut slot), Ok(true));
    let again = consumer_cycle(&mut slot);
    assert_eq!(again.state, ConsumerState::Draining);
    assert_eq!(again.pulses, first.pulses);
}

#[test]
fn out_of_range_address_is_clamped_before_encoding() {
    let s = state(200, 0);
    assert_eq!(s.address, 127);
    let mut slot: HandoffSlot<Vec<bool>> = HandoffSlot::new();
    assert_eq!(producer_cycle(&s, &mut slot), Ok(true));
    let bits = slot.take().unwrap();
    assert_eq!(decode_speed_and_direction(&bits), Some((127, 0, false)));
}

#[test]
fn round_trip_over_all_valid_commands() {
    for address in 1..=127u8 {
        for speed in -(MAX_SPEED as i8)..=(MAX_SPEED as i8) {
            let s = state(address, speed);
            let bits = build_packet(&s).unwrap();
            assert_eq!(bits.len(), SPEED_PACKET_BITS);
            assert_eq!(
                decode_speed_and_direction(&bits),
                Some((address, speed.unsigned_abs(), speed > 0))
            );
        }
    }
}

#[test]
fn address_zero_is_refused_by_the_encoder() {
    let s = state(0, 3);
    let mut slot: HandoffSlot<Vec<bool>> = HandoffSlot::new();
    assert_eq!(producer_cycle(&s, &mut slot), Err(EncodeError::InvalidAddress));
    assert!(slot.is_empty());
}

#[test]
fn speed_beyond_the_largest_step_is_refused_by_the_encoder() {
    let s = DeviceState { speed: 100, address: 3 };
    assert_eq!(build_packet(&s), Err(EncodeError::InvalidSpeed));
}

#[test]
fn top_speed_packet() {
    let s = state(1, 28);
    // speed code 31: upper four bits 1111, low bit 1
    assert_eq!(build_packet(&s).unwrap(), expected_packet(1, 0x7f));
}

#[test]
fn bit_pulses_have_protocol_timing() {
    let one = pulse_for_bit(true);
    let zero = pulse_for_bit(false);
    assert_eq!((one.length1, one.length2), (58, 58));
    assert_eq!((zero.length1, zero.length2), (100, 100));
    assert!(ONE_HALF_PERIOD_US < ZERO_HALF_PERIOD_US);
    assert!(!one.level1 && one.level2);
    assert!(!PulseCode::end().level1 && PulseCode::end().is_end());
    assert!(!one.is_end());
}

#[test]
fn idle_waveform_is_a_zero_bit_run() {
    let mut slot: HandoffSlot<Vec<bool>> = HandoffSlot::new();
    let t = consumer_cycle(&mut slot);
    assert_eq!(t.state, ConsumerState::Idle);
    assert_eq!(t.pulses.len(), IDLE_ZERO_BITS + 1);
    assert_eq!(t.pulses.len(), 16);
    for p in &t.pulses[..IDLE_ZERO_BITS] {
        assert_eq!(*p, pulse_for_bit(false));
    }
    assert!(t.pulses[IDLE_ZERO_BITS].is_end());
    assert_eq!(t.pulses, packet_pulses(&vec![false; IDLE_ZERO_BITS]));
}

#[test]
fn empty_packet_transmits_only_the_end_marker() {
    assert_eq!(packet_pulses(&Vec::new()), vec![PulseCode::end()]);
}

#[test]
fn decoder_refuses_damaged_packets() {
    let good = expected_packet(3, 0x64);
    let mut bad_check = good.clone();
    bad_check[40] = !bad_check[40];
    assert_eq!(decode_speed_and_direction(&bad_check), None);
    let mut bad_preamble = good.clone();
    bad_preamble[2] = false;
    assert_eq!(decode_speed_and_direction(&bad_preamble), None);
    assert_eq!(decode_speed_and_direction(&good[..42].to_vec()), None);
    // emergency stop carries no speed step
    assert_eq!(decode_speed_and_direction(&expected_packet(3, 0x61)), None);
    // the alternative stop code reads as speed 0
    assert_eq!(decode_speed_and_direction(&expected_packet(3, 0x70)), Some((3, 0, true)));
}
