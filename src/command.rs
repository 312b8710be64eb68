//! Live command state of the selected locomotive.
use vstd::prelude::*;

verus! {

/// Largest short-mode address a locomotive can have.
pub const MAX_ADDRESS: u8 = 127;

/// Largest speed step magnitude accepted by the packet encoder.
pub const MAX_SPEED: u8 = 28;

/// Address of the locomotive selected at power-up.
pub const DEFAULT_ADDRESS: u8 = 3;

/// Clamps a requested address into `[0, MAX_ADDRESS]`.
pub open spec fn clamp_address(a: int) -> int {
    if a > MAX_ADDRESS as int { MAX_ADDRESS as int } else if a < 0 { 0 } else { a }
}

/// Clamps a requested speed into `[-MAX_SPEED, MAX_SPEED]`.
pub open spec fn clamp_speed(s: int) -> int {
    if s > MAX_SPEED as int {
        MAX_SPEED as int
    } else if s < -(MAX_SPEED as int) {
        -(MAX_SPEED as int)
    } else {
        s
    }
}

/// Address, speed and direction of the currently selected locomotive.
///
/// `speed` is signed: its sign gives the direction (positive is forward)
/// and its absolute value the speed step.
#[derive(Clone, Copy, Debug, PartialEq, Eq)]
pub struct DeviceState {
    /// Normalized speed and direction
    pub speed: i8,
    pub address: u8,
}

impl DeviceState {
    /// Both fields lie in their legal ranges.
    pub open spec fn wf(&self) -> bool {
        &&& self.address <= MAX_ADDRESS
        &&& -(MAX_SPEED as int) <= self.speed as int <= MAX_SPEED as int
    }

    /// Absolute value of the speed: the step sent to the locomotive.
    pub open spec fn magnitude_spec(&self) -> u8 {
        if self.speed < 0 { (-(self.speed as int)) as u8 } else { self.speed as u8 }
    }

    /// Direction sent to the locomotive: forward exactly when speed is positive.
    pub open spec fn forward_spec(&self) -> bool {
        self.speed > 0
    }

    /// State at power-up: the default locomotive, stopped.
    pub fn new() -> (r: Self)
        ensures
            r.wf(),
            r.address == DEFAULT_ADDRESS,
            r.speed == 0,
    {
        DeviceState { speed: 0, address: DEFAULT_ADDRESS }
    }

    /// Stores `address`, clamped to `[0, MAX_ADDRESS]`.
    pub fn set_address(&mut self, address: u8)
        ensures
            final(self).address as int == clamp_address(address as int),
            final(self).speed == old(self).speed,
    {
        self.address = if address > MAX_ADDRESS { MAX_ADDRESS } else { address };
    }

    /// Stores `speed`, clamped to `[-MAX_SPEED, MAX_SPEED]`.
    pub fn set_speed(&mut self, speed: i8)
        ensures
            final(self).speed as int == clamp_speed(speed as int),
            final(self).address == old(self).address,
    {
        let max: i8 = MAX_SPEED as i8;
        self.speed = if speed > max { max } else if speed < -max { -max } else { speed };
    }

    /// Steps the address up by one, staying within range.
    pub fn increment_address(&mut self)
        requires
            old(self).wf(),
        ensures
            final(self).wf(),
            final(self).address as int == clamp_address(old(self).address + 1),
            final(self).speed == old(self).speed,
    {
        let next: u8 = self.address + 1;
        self.set_address(next);
    }

    /// Steps the address down by one, stopping at zero.
    pub fn decrement_address(&mut self)
        requires
            old(self).wf(),
        ensures
            final(self).wf(),
            final(self).address as int == clamp_address(old(self).address - 1),
            final(self).speed == old(self).speed,
    {
        let next: u8 = self.address.saturating_sub(1);
        self.set_address(next);
    }

    /// Steps the speed up by one, staying within range.
    pub fn increment_speed(&mut self)
        requires
            old(self).wf(),
        ensures
            final(self).wf(),
            final(self).speed as int == clamp_speed(old(self).speed + 1),
            final(self).address == old(self).address,
    {
        let next: i8 = self.speed + 1;
        self.set_speed(next);
    }

    /// Steps the speed down by one, staying within range.
    pub fn decrement_speed(&mut self)
        requires
            old(self).wf(),
        ensures
            final(self).wf(),
            final(self).speed as int == clamp_speed(old(self).speed - 1),
            final(self).address == old(self).address,
    {
        let next: i8 = self.speed - 1;
        self.set_speed(next);
    }

    /// Speed step to encode: the absolute value of `speed`.
    pub fn magnitude(&self) -> (r: u8)
        ensures
            r == self.magnitude_spec(),
    {
        if self.speed < 0 {
            (-(self.speed as i16)) as u8
        } else {
            self.speed as u8
        }
    }

    /// Direction to encode: forward exactly when `speed` is positive.
    pub fn is_forward(&self) -> (r: bool)
        ensures
            r == self.forward_spec(),
    {
        self.speed > 0
    }
}

} // verus!
