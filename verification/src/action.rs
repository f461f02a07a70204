//! The commands that the network side hands to the actuation loop.

use vstd::prelude::*;

verus! {

/// Direction in which a track is driven.
#[derive(Clone, Copy, Debug, PartialEq, Eq, Structural)]
pub enum Rolling {
    Normal,
    Reverse,
}

/// Speed of a track, slowest first.
#[derive(Clone, Copy, Debug, PartialEq, Eq, PartialOrd, Ord, Structural)]
pub enum MoterSpeed {
    Stop,
    Slow,
    Middle,
    High,
}

impl MoterSpeed {
    /// Position in the order `Stop < Slow < Middle < High`.
    pub open spec fn rank(self) -> nat {
        match self {
            MoterSpeed::Stop => 0,
            MoterSpeed::Slow => 1,
            MoterSpeed::Middle => 2,
            MoterSpeed::High => 3,
        }
    }

    /// Duty cycle in hundredths of a period: 0, 30, 50 and 70.
    pub open spec fn percent(self) -> u8 {
        match self {
            MoterSpeed::Stop => 0,
            MoterSpeed::Slow => 30,
            MoterSpeed::Middle => 50,
            MoterSpeed::High => 70,
        }
    }

    /// Looks up the duty cycle for this speed, in hundredths of a period.
    pub fn duty_cycle_percent(self) -> (percent: u8)
        ensures
            percent == self.percent(),
    {
        match self {
            MoterSpeed::Slow => 30,
            MoterSpeed::Middle => 50,
            MoterSpeed::High => 70,
            MoterSpeed::Stop => 0,
        }
    }
}

/// One decoded command.
#[derive(Clone, Copy, Debug, PartialEq, Eq, Structural)]
pub enum Action {
    /// Drive the right track.
    MoveRightCrawler(Rolling, MoterSpeed),
    /// Drive the left track.
    MoveLeftCrawler(Rolling, MoterSpeed),
    /// Invert both indicator lights.
    ToggleEye,
    /// Shut the robot down; nothing is processed after it.
    Stop,
    /// Do nothing.
    NoOp,
}

} // verus!
