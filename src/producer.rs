//! The packet producer: one packet per cadence tick, published into the
//! handoff slot when the consumer has drained the previous one.
use vstd::prelude::*;
use crate::command::{DeviceState, MAX_SPEED};
use crate::encoder::{decoded, encode_result, encode_speed_and_direction, lemma_encode_decode_round_trip, EncodeError};
use crate::handoff::HandoffSlot;

verus! {

/// Milliseconds between two producer cycles: the protocol's minimum
/// packet-repeat spacing.
pub const PRODUCER_PERIOD_MS: u64 = 15;

/// What the encoder returns for the command held in `state`.
pub open spec fn command_packet(state: DeviceState) -> Result<Seq<bool>, EncodeError> {
    encode_result(state.address, state.magnitude_spec(), state.forward_spec())
}

/// Builds the speed-and-direction packet for the command held in `state`:
/// its address, the absolute value of its speed, and forward exactly when
/// the speed is positive.
pub fn build_packet(state: &DeviceState) -> (r: Result<Vec<bool>, EncodeError>)
    ensures
        match r {
            Ok(bits) => command_packet(*state) == Ok::<Seq<bool>, EncodeError>(bits@),
            Err(e) => command_packet(*state) == Err::<Seq<bool>, EncodeError>(e),
        },
{
    encode_speed_and_direction(state.address, state.magnitude(), state.is_forward())
}

/// One producer cycle. An occupied slot is left as it is and `Ok(false)`
/// returned; otherwise the packet for `state` is built and published, and
/// `Ok(true)` returned, or the encoder's error returned with the slot left
/// empty.
pub fn producer_cycle(state: &DeviceState, slot: &mut HandoffSlot<Vec<bool>>) -> (r: Result<bool, EncodeError>)
    ensures
        old(slot)@ is Some ==> r == Ok::<bool, EncodeError>(false) && final(slot)@ == old(slot)@,
        old(slot)@ is None ==> match command_packet(*state) {
            Ok(bits) => r == Ok::<bool, EncodeError>(true) && (final(slot)@ matches Some(p) && p@ == bits),
            Err(e) => r == Err::<bool, EncodeError>(e) && final(slot)@ is None,
        },
{
    if !slot.is_empty() {
        return Ok(false);
    }
    match build_packet(state) {
        Ok(bits) => {
            let put = slot.try_put(bits);
            Ok(put)
        },
        Err(e) => Err(e),
    }
}

/// A command state within its ranges, with a non-zero address, always
/// encodes, and decoding the packet gives back its address, speed magnitude
/// and direction.
pub proof fn lemma_valid_state_encodes(state: DeviceState)
    requires
        state.wf(),
        state.address != 0,
    ensures
        command_packet(state) is Ok,
        decoded(command_packet(state)->Ok_0) == Some((state.address, state.magnitude_spec(), state.forward_spec())),
{
    assert(state.magnitude_spec() <= MAX_SPEED);
    lemma_encode_decode_round_trip(state.address, state.magnitude_spec(), state.forward_spec());
}

} // verus!
