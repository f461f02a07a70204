//! A single digital output line and its mirrored level.

use vstd::prelude::*;
use crate::effect::{issued, Effect, Level};

verus! {

/// What is known of one output line: which line it is and the level it drives.
pub struct PinState {
    pub gpio: u8,
    pub level: Level,
}

impl PinState {
    /// The same line driving `level`.
    pub open spec fn at(self, level: Level) -> PinState {
        PinState { gpio: self.gpio, level }
    }

    /// The write that drives this line to `level`.
    pub open spec fn write(self, level: Level) -> Effect {
        Effect::SetLevel { gpio: self.gpio, level }
    }

    /// The write needed to bring this line to `level`: none when it is there already.
    pub open spec fn change(self, level: Level) -> Option<Effect> {
        if self.level == level {
            None
        } else {
            Some(self.write(level))
        }
    }
}

/// An output line owned by exactly one component.
///
/// The level is a mirror of the hardware: it starts as the level read when the
/// line was acquired and follows every write returned by the methods below.
pub struct OutPin {
    gpio: u8,
    level: Level,
}

impl View for OutPin {
    type V = PinState;

    closed spec fn view(&self) -> PinState {
        PinState { gpio: self.gpio, level: self.level }
    }
}

impl OutPin {
    /// Mirrors the line with BCM number `gpio`, found driving `level`.
    pub fn new(gpio: u8, level: Level) -> (pin: OutPin)
        ensures
            pin@ == (PinState { gpio, level }),
    {
        OutPin { gpio, level }
    }

    /// Raises the line unless it is high already.
    pub fn change_high(&mut self) -> (effect: Option<Effect>)
        ensures
            final(self)@ == old(self)@.at(Level::High),
            effect == old(self)@.change(Level::High),
    {
        if self.is_set_low() {
            Some(self.set_high())
        } else {
            None
        }
    }

    /// Lowers the line unless it is low already.
    pub fn change_low(&mut self) -> (effect: Option<Effect>)
        ensures
            final(self)@ == old(self)@.at(Level::Low),
            effect == old(self)@.change(Level::Low),
    {
        if self.is_set_high() {
            Some(self.set_low())
        } else {
            None
        }
    }

    /// Drives the line high, whatever its level.
    pub fn set_high(&mut self) -> (effect: Effect)
        ensures
            final(self)@ == old(self)@.at(Level::High),
            effect == old(self)@.write(Level::High),
    {
        self.level = Level::High;
        Effect::SetLevel { gpio: self.gpio, level: Level::High }
    }

    /// Drives the line low, whatever its level.
    pub fn set_low(&mut self) -> (effect: Effect)
        ensures
            final(self)@ == old(self)@.at(Level::Low),
            effect == old(self)@.write(Level::Low),
    {
        self.level = Level::Low;
        Effect::SetLevel { gpio: self.gpio, level: Level::Low }
    }

    /// Drives the line to the level it is not at.
    pub fn toggle(&mut self) -> (effect: Effect)
        ensures
            final(self)@ == old(self)@.at(old(self)@.level.flipped()),
            effect == old(self)@.write(old(self)@.level.flipped()),
    {
        if self.is_set_low() {
            self.set_high()
        } else {
            self.set_low()
        }
    }

    /// True when the line drives low.
    pub fn is_set_low(&self) -> (low: bool)
        ensures
            low == (self@.level == Level::Low),
    {
        self.level == Level::Low
    }

    /// True when the line drives high.
    pub fn is_set_high(&self) -> (high: bool)
        ensures
            high == (self@.level == Level::High),
    {
        self.level == Level::High
    }

    /// BCM number of the line.
    pub fn gpio(&self) -> (gpio: u8)
        ensures
            gpio == self@.gpio,
    {
        self.gpio
    }

    /// Level that the line drives.
    pub fn level(&self) -> (level: Level)
        ensures
            level == self@.level,
    {
        self.level
    }
}

/// Asking twice for the same level writes at most once: after `change`, the
/// line is at `level` and a second `change` to it issues nothing.
pub proof fn lemma_change_is_idempotent(pin: PinState, level: Level)
    ensures
        pin.at(level).change(level) is None,
        pin.at(level).at(level) == pin.at(level),
        issued(pin.change(level)).len() + issued(pin.at(level).change(level)).len() == if pin.level
            == level {
            0nat
        } else {
            1nat
        },
{
}

} // verus!
