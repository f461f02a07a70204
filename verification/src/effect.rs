//! The vocabulary in which the core talks to the hardware.

use vstd::prelude::*;

verus! {

/// Logic level of a digital output line.
#[derive(Clone, Copy, Debug, PartialEq, Eq, Hash, Structural)]
pub enum Level {
    Low,
    High,
}

impl Level {
    /// The other level.
    pub open spec fn flipped(self) -> Level {
        match self {
            Level::Low => Level::High,
            Level::High => Level::Low,
        }
    }

    /// Returns the other level.
    pub fn toggled(self) -> (other: Level)
        ensures
            other == self.flipped(),
    {
        match self {
            Level::Low => Level::High,
            Level::High => Level::Low,
        }
    }
}

/// Hardware PWM channel that sets one motor's speed.
#[derive(Clone, Copy, Debug, PartialEq, Eq, Hash, Structural)]
pub enum Channel {
    Pwm0,
    Pwm1,
}

/// One write to the hardware.
#[derive(Clone, Copy, Debug, PartialEq, Eq, Structural)]
pub enum Effect {
    /// Drive the output line with BCM number `gpio` to `level`.
    SetLevel { gpio: u8, level: Level },
    /// Set the duty cycle of `channel` to `percent` hundredths of a period.
    SetDuty { channel: Channel, percent: u8 },
}

/// The writes that an operation issuing at most one write has issued.
pub open spec fn issued(effect: Option<Effect>) -> Seq<Effect> {
    match effect {
        Some(e) => seq![e],
        None => Seq::empty(),
    }
}

/// Number of duty-cycle writes among `effects`.
pub open spec fn duty_writes(effects: Seq<Effect>) -> nat
    decreases effects.len(),
{
    if effects.len() == 0 {
        0
    } else {
        duty_writes(effects.drop_last()) + if effects.last() is SetDuty {
            1nat
        } else {
            0nat
        }
    }
}

/// Duty-cycle writes are counted piece by piece.
pub proof fn lemma_duty_writes_concat(first: Seq<Effect>, rest: Seq<Effect>)
    ensures
        duty_writes(first + rest) == duty_writes(first) + duty_writes(rest),
    decreases rest.len(),
{
    if rest.len() == 0 {
        assert(first + rest == first);
    } else {
        assert((first + rest).drop_last() == first + rest.drop_last());
        lemma_duty_writes_concat(first, rest.drop_last());
    }
}

/// An operation that issues at most one write issues at most one duty-cycle write.
pub proof fn lemma_duty_writes_issued(effect: Option<Effect>)
    ensures
        duty_writes(issued(effect)) == if effect is Some && effect->Some_0 is SetDuty {
            1nat
        } else {
            0nat
        },
{
    if let Some(e) = effect {
        assert(issued(effect).len() == 1);
        assert(issued(effect).last() == e);
        assert(issued(effect).drop_last() == Seq::<Effect>::empty());
        assert(duty_writes(issued(effect).drop_last()) == 0);
    }
}

/// Appends to `out` the write that an operation has issued, if any.
pub(crate) fn record(out: &mut Vec<Effect>, effect: Option<Effect>)
    ensures
        final(out)@ == old(out)@ + issued(effect),
{
    match effect {
        Some(e) => out.push(e),
        None => {},
    }
}

} // verus!
