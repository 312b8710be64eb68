//! Mapping of packet bits to the pulse codes of the hardware output channel.
use vstd::prelude::*;

verus! {

/// Half-period of a one-bit in microseconds (NMRA S-9.1 nominal value).
pub const ONE_HALF_PERIOD_US: u16 = 58;

/// Half-period of a zero-bit in microseconds (NMRA S-9.1 nominal value).
pub const ZERO_HALF_PERIOD_US: u16 = 100;

/// Number of zero-bit pulses in the idle waveform, before its end marker.
pub const IDLE_ZERO_BITS: usize = 15;

/// One entry of the pulse output channel: the line is held at `level1`
/// for `length1` microseconds, then at `level2` for `length2`. An entry of
/// two zero lengths ends a transmission.
#[derive(Clone, Copy, Debug, PartialEq, Eq, Structural)]
pub struct PulseCode {
    pub level1: bool,
    pub length1: u16,
    pub level2: bool,
    pub length2: u16,
}

/// Half-period of the pulse for `bit`.
pub open spec fn half_period(bit: bool) -> u16 {
    if bit { ONE_HALF_PERIOD_US } else { ZERO_HALF_PERIOD_US }
}

/// The pulse for one bit: low, then high, each for the bit's half-period.
pub open spec fn bit_pulse(bit: bool) -> PulseCode {
    PulseCode { level1: false, length1: half_period(bit), level2: true, length2: half_period(bit) }
}

/// The entry that ends a transmission.
pub open spec fn end_marker() -> PulseCode {
    PulseCode { level1: false, length1: 0, level2: false, length2: 0 }
}

/// The pulse sequence that transmits `bits`: one pulse per bit, in order,
/// then the end marker.
pub open spec fn transmission(bits: Seq<bool>) -> Seq<PulseCode> {
    bits.map_values(|b: bool| bit_pulse(b)).push(end_marker())
}

/// The run of zero-bits that the idle waveform carries.
pub open spec fn idle_bits() -> Seq<bool> {
    Seq::new(IDLE_ZERO_BITS as nat, |i: int| false)
}

/// The idle keep-alive waveform: a run of zero-bit pulses and the end marker.
pub open spec fn idle_waveform() -> Seq<PulseCode> {
    transmission(idle_bits())
}

impl PulseCode {
    /// The entry that ends a transmission.
    pub fn end() -> (r: PulseCode)
        ensures
            r == end_marker(),
    {
        PulseCode { level1: false, length1: 0, level2: false, length2: 0 }
    }

    /// Whether this entry ends a transmission.
    pub fn is_end(&self) -> (r: bool)
        ensures
            r == (self.length1 == 0 && self.length2 == 0),
    {
        self.length1 == 0 && self.length2 == 0
    }
}

/// The pulse for one bit.
pub fn pulse_for_bit(bit: bool) -> (r: PulseCode)
    ensures
        r == bit_pulse(bit),
        r.length1 == r.length2,
        r.length1 == (if bit { ONE_HALF_PERIOD_US } else { ZERO_HALF_PERIOD_US }),
{
    let half: u16 = if bit { ONE_HALF_PERIOD_US } else { ZERO_HALF_PERIOD_US };
    PulseCode { level1: false, length1: half, level2: true, length2: half }
}

/// The pulse sequence that transmits `bits`, closed by the end marker.
pub fn packet_pulses(bits: &Vec<bool>) -> (r: Vec<PulseCode>)
    requires
        bits@.len() < usize::MAX,
    ensures
        r@ == transmission(bits@),
{
    let mut r: Vec<PulseCode> = Vec::with_capacity(bits.len() + 1);
    let mut i: usize = 0;
    while i < bits.len()
        invariant
            i <= bits@.len(),
            r@ == bits@.take(i as int).map_values(|b: bool| bit_pulse(b)),
        decreases bits@.len() - i,
    {
        r.push(pulse_for_bit(bits[i]));
        i = i + 1;
        assert(bits@.take(i as int) =~= bits@.take(i - 1).push(bits@[i - 1]));
        assert(r@ =~= bits@.take(i as int).map_values(|b: bool| bit_pulse(b)));
    }
    assert(bits@.take(i as int) =~= bits@);
    r.push(PulseCode::end());
    r
}

/// The idle keep-alive waveform.
pub fn idle_pulses() -> (r: Vec<PulseCode>)
    ensures
        r@ == idle_waveform(),
{
    let mut r: Vec<PulseCode> = Vec::with_capacity(IDLE_ZERO_BITS + 1);
    let mut i: usize = 0;
    while i < IDLE_ZERO_BITS
        invariant
            i <= IDLE_ZERO_BITS,
            r@ =~= Seq::new(i as nat, |j: int| bit_pulse(false)),
        decreases IDLE_ZERO_BITS - i,
    {
        r.push(pulse_for_bit(false));
        i = i + 1;
    }
    r.push(PulseCode::end());
    assert(r@ =~= idle_waveform());
    r
}

/// Every one-bit pulse has equal high and low halves of
/// `ONE_HALF_PERIOD_US`, every zero-bit pulse equal halves of
/// `ZERO_HALF_PERIOD_US`, and the one half-period is the shorter.
pub proof fn lemma_bit_timing(bit: bool)
    ensures
        bit_pulse(bit).length1 == bit_pulse(bit).length2,
        bit ==> bit_pulse(bit).length1 == ONE_HALF_PERIOD_US,
        !bit ==> bit_pulse(bit).length1 == ZERO_HALF_PERIOD_US,
        bit_pulse(bit).level1 != bit_pulse(bit).level2,
        ONE_HALF_PERIOD_US < ZERO_HALF_PERIOD_US,
{
}

/// The idle waveform is shaped exactly as the transmission of a packet: a
/// non-empty run of zero-bit pulses, each a valid bit pulse, closed by the
/// end marker; only its content tells it apart.
pub proof fn lemma_idle_is_zero_bit_run()
    ensures
        idle_waveform() == transmission(idle_bits()),
        idle_waveform().len() == IDLE_ZERO_BITS + 1,
        IDLE_ZERO_BITS > 0,
        forall|i: int| 0 <= i < IDLE_ZERO_BITS ==> #[trigger] idle_waveform()[i] == bit_pulse(false),
        idle_waveform().last() == end_marker(),
{
}

} // verus!
