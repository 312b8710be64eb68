//! The pulse consumer: each cycle it drains the handoff slot and turns the
//! packet into pulses, or sends the idle waveform when nothing is pending.
use vstd::prelude::*;
use crate::command::DeviceState;
use crate::encoder::{EncodeError, MAX_PACKET_BITS};
use crate::producer::command_packet;
use crate::handoff::HandoffSlot;
use crate::pulse::{bit_pulse, end_marker, idle_pulses, idle_waveform, lemma_idle_is_zero_bit_run, packet_pulses, transmission, PulseCode};

verus! {

/// Which branch a consumer cycle took.
#[derive(Clone, Copy, Debug, PartialEq, Eq, Structural)]
pub enum ConsumerState {
    /// The slot held a packet, which is being transmitted.
    Draining,
    /// The slot was empty; the idle waveform is being transmitted.
    Idle,
}

/// What one consumer cycle hands to the pulse output channel.
pub struct Transmission {
    pub state: ConsumerState,
    pub pulses: Vec<PulseCode>,
}

/// The slot holds nothing longer than a packet buffer.
pub open spec fn slot_within_capacity(slot: Option<Vec<bool>>) -> bool {
    slot matches Some(bits) ==> bits@.len() <= MAX_PACKET_BITS
}

/// One consumer cycle: takes the pending packet, if any, and returns the
/// pulses to transmit, leaving the slot empty.
pub fn consumer_cycle(slot: &mut HandoffSlot<Vec<bool>>) -> (r: Transmission)
    requires
        slot_within_capacity(old(slot)@),
    ensures
        final(slot)@ is None,
        match old(slot)@ {
            Some(bits) => r.state == ConsumerState::Draining && r.pulses@ == transmission(bits@),
            None => r.state == ConsumerState::Idle && r.pulses@ == idle_waveform(),
        },
{
    match slot.take() {
        Some(bits) => Transmission { state: ConsumerState::Draining, pulses: packet_pulses(&bits) },
        None => Transmission { state: ConsumerState::Idle, pulses: idle_pulses() },
    }
}

/// The pulses a consumer cycle sends for the slot contents `slot`.
pub open spec fn cycle_pulses(slot: Option<Seq<bool>>) -> Seq<PulseCode> {
    match slot {
        Some(bits) => transmission(bits),
        None => idle_waveform(),
    }
}

/// Whether the slot holds a packet or is empty, every consumer cycle sends
/// bit pulses before the end marker: with the producer's packets in the
/// slot, the bus never stops toggling.
pub proof fn lemma_bus_never_silent(slot: Option<Seq<bool>>, state: DeviceState)
    requires
        slot matches Some(bits) ==> command_packet(state) == Ok::<Seq<bool>, EncodeError>(bits),
    ensures
        cycle_pulses(slot).len() >= 2,
        cycle_pulses(slot)[0] != end_marker(),
        cycle_pulses(slot).last() == end_marker(),
{
    match slot {
        Some(bits) => {
            assert(bits.len() == 43);
            assert(transmission(bits)[0] == bit_pulse(bits[0]));
        },
        None => {
            lemma_idle_is_zero_bit_run();
        },
    }
}

} // verus!
