//! The hardware as the writes leave it.
//!
//! Nothing here runs: the board is the yardstick against which the writes
//! that the core returns are judged, one write at a time.

use vstd::prelude::*;
use crate::action::MoterSpeed;
use crate::effect::{issued, Channel, Effect, Level};
use crate::moter::MoterState;
use crate::pin::PinState;
use crate::robo::RoboState;

verus! {

/// The level that each output line drives and the duty cycle of each PWM channel.
pub struct Board {
    pub lines: Map<u8, Level>,
    pub duty: Map<Channel, u8>,
}

impl Board {
    /// The board with line `gpio` driving `level`.
    pub open spec fn set_line(self, gpio: u8, level: Level) -> Board {
        Board { lines: self.lines.insert(gpio, level), duty: self.duty }
    }

    /// The board with `channel` at `percent` hundredths of a period.
    pub open spec fn set_duty(self, channel: Channel, percent: u8) -> Board {
        Board { lines: self.lines, duty: self.duty.insert(channel, percent) }
    }

    /// The board after one write.
    pub open spec fn perform(self, effect: Effect) -> Board {
        match effect {
            Effect::SetLevel { gpio, level } => self.set_line(gpio, level),
            Effect::SetDuty { channel, percent } => self.set_duty(channel, percent),
        }
    }

    /// The board after `effects`, performed first to last.
    pub open spec fn perform_all(self, effects: Seq<Effect>) -> Board
        decreases effects.len(),
    {
        if effects.len() == 0 {
            self
        } else {
            self.perform(effects.first()).perform_all(effects.drop_first())
        }
    }

    /// `holds` is true of the board before `effects`, after each of them and
    /// so after all of them.
    pub open spec fn always(self, effects: Seq<Effect>, holds: spec_fn(Board) -> bool) -> bool {
        forall|k: int|
            0 <= k <= effects.len() ==> holds(self.perform_all(#[trigger] effects.take(k)))
    }

    /// Lines `in_1` and `in_2` are both high.
    pub open spec fn both_high(self, in_1: u8, in_2: u8) -> bool {
        &&& self.lines.contains_key(in_1) && self.lines[in_1] == Level::High
        &&& self.lines.contains_key(in_2) && self.lines[in_2] == Level::High
    }

    /// At no point while `effects` are performed are lines `in_1` and `in_2`
    /// both high.
    pub open spec fn never_both_high(self, effects: Seq<Effect>, in_1: u8, in_2: u8) -> bool {
        self.always(effects, one_low(in_1, in_2))
    }

    /// The board with the lines and the channel of `m` as `m` mirrors them.
    pub open spec fn with_moter(self, m: MoterState) -> Board {
        self.set_line(m.in_1.gpio, m.in_1.level).set_line(m.in_2.gpio, m.in_2.level).set_duty(
            m.channel,
            m.speed.percent(),
        )
    }

    /// The line of `pin` drives the level that `pin` mirrors.
    pub open spec fn shows_pin(self, pin: PinState) -> bool {
        self.lines.contains_key(pin.gpio) && self.lines[pin.gpio] == pin.level
    }

    /// `channel` is at the duty cycle of `speed`.
    pub open spec fn shows_duty(self, channel: Channel, speed: MoterSpeed) -> bool {
        self.duty.contains_key(channel) && self.duty[channel] == speed.percent()
    }

    /// The lines and the channel of `m` are as `m` mirrors them.
    pub open spec fn shows_moter(self, m: MoterState) -> bool {
        &&& self.shows_pin(m.in_1)
        &&& self.shows_pin(m.in_2)
        &&& self.shows_duty(m.channel, m.speed)
    }

    /// Every line and channel of the chassis is as `s` mirrors it.
    pub open spec fn shows(self, s: RoboState) -> bool {
        &&& self.shows_moter(s.moter_left)
        &&& self.shows_moter(s.moter_right)
        &&& self.shows_pin(s.stby)
        &&& self.shows_pin(s.left_eye)
        &&& self.shows_pin(s.right_eye)
    }
}

/// The boards on which lines `in_1` and `in_2` are not both high.
pub open spec fn one_low(in_1: u8, in_2: u8) -> spec_fn(Board) -> bool {
    |b: Board| !b.both_high(in_1, in_2)
}

/// Performing `first` and then `rest` is performing them as one sequence.
pub proof fn lemma_perform_all_concat(b: Board, first: Seq<Effect>, rest: Seq<Effect>)
    ensures
        b.perform_all(first + rest) == b.perform_all(first).perform_all(rest),
    decreases first.len(),
{
    if first.len() == 0 {
        assert(first + rest == rest);
    } else {
        assert((first + rest).first() == first.first());
        assert((first + rest).drop_first() == first.drop_first() + rest);
        lemma_perform_all_concat(b.perform(first.first()), first.drop_first(), rest);
    }
}

/// What holds all along `first`, and all along `rest` from where `first`
/// leaves the board, holds all along both.
pub proof fn lemma_always_concat(
    b: Board,
    first: Seq<Effect>,
    rest: Seq<Effect>,
    holds: spec_fn(Board) -> bool,
)
    requires
        b.always(first, holds),
        b.perform_all(first).always(rest, holds),
    ensures
        b.always(first + rest, holds),
        b.perform_all(first + rest) == b.perform_all(first).perform_all(rest),
{
    lemma_perform_all_concat(b, first, rest);
    assert forall|k: int| 0 <= k <= (first + rest).len() implies holds(
        b.perform_all(#[trigger] (first + rest).take(k)),
    ) by {
        if k <= first.len() {
            assert((first + rest).take(k) == first.take(k));
        } else {
            let j = k - first.len();
            assert((first + rest).take(k) == first + rest.take(j));
            lemma_perform_all_concat(b, first, rest.take(j));
        }
    }
}

/// What holds before and after a stage of at most one write holds all along it.
pub proof fn lemma_always_stage(b: Board, stage: Seq<Effect>, holds: spec_fn(Board) -> bool)
    requires
        stage.len() <= 1,
        holds(b),
        holds(b.perform_all(stage)),
    ensures
        b.always(stage, holds),
{
    assert forall|k: int| 0 <= k <= stage.len() implies holds(
        b.perform_all(#[trigger] stage.take(k)),
    ) by {
        if k == 0 {
            assert(stage.take(0).len() == 0);
        } else {
            assert(stage.take(k) == stage);
        }
    }
}

/// On a board that shows `pin`, bringing `pin` to `level` leaves the line
/// at `level`, whether a write was needed or not, and nothing else changed.
pub proof fn lemma_change_sets_line(b: Board, pin: PinState, level: Level)
    requires
        b.shows_pin(pin),
    ensures
        issued(pin.change(level)).len() <= 1,
        b.perform_all(issued(pin.change(level))) == b.set_line(pin.gpio, level),
{
    let stage = issued(pin.change(level));
    if pin.level == level {
        assert(b.lines.insert(pin.gpio, level) == b.lines);
    } else {
        lemma_perform_one(b, pin.write(level));
    }
}

/// A forced write leaves the line at `level` and nothing else changed.
pub proof fn lemma_write_sets_line(b: Board, pin: PinState, level: Level)
    ensures
        b.perform_all(seq![pin.write(level)]) == b.set_line(pin.gpio, level),
{
    lemma_perform_one(b, pin.write(level));
}

/// On a board that shows the speed of `m`, bringing `m` to `speed` leaves
/// its channel at the duty cycle of `speed`, whether a write was needed or
/// not, and nothing else changed.
pub proof fn lemma_change_sets_duty(b: Board, m: MoterState, speed: MoterSpeed)
    requires
        b.shows_duty(m.channel, m.speed),
    ensures
        issued(m.duty_change(speed)).len() <= 1,
        b.perform_all(issued(m.duty_change(speed))) == b.set_duty(m.channel, speed.percent()),
{
    if m.speed == speed {
        assert(b.duty.insert(m.channel, speed.percent()) == b.duty);
    } else {
        lemma_perform_one(b, Effect::SetDuty { channel: m.channel, percent: speed.percent() });
    }
}

/// The three stages of a motor operation: one line is brought to `to_first`,
/// then the other to `to_second`, then the channel to `speed`. What holds of
/// the board before the first stage and after each stage holds all along,
/// and the board ends as three forced writes would leave it.
pub proof fn lemma_moter_stages(
    b: Board,
    m: MoterState,
    first: PinState,
    to_first: Level,
    second: PinState,
    to_second: Level,
    speed: MoterSpeed,
    holds: spec_fn(Board) -> bool,
)
    requires
        first.gpio != second.gpio,
        b.shows_pin(first),
        b.shows_pin(second),
        b.shows_duty(m.channel, m.speed),
        holds(b),
        holds(b.set_line(first.gpio, to_first)),
        holds(b.set_line(first.gpio, to_first).set_line(second.gpio, to_second)),
        holds(
            b.set_line(first.gpio, to_first).set_line(second.gpio, to_second).set_duty(
                m.channel,
                speed.percent(),
            ),
        ),
    ensures
        b.always(
            issued(first.change(to_first)) + issued(second.change(to_second)) + issued(
                m.duty_change(speed),
            ),
            holds,
        ),
        b.perform_all(
            issued(first.change(to_first)) + issued(second.change(to_second)) + issued(
                m.duty_change(speed),
            ),
        ) == b.set_line(first.gpio, to_first).set_line(second.gpio, to_second).set_duty(
            m.channel,
            speed.percent(),
        ),
{
    let stage_1 = issued(first.change(to_first));
    let stage_2 = issued(second.change(to_second));
    let stage_3 = issued(m.duty_change(speed));
    let b1 = b.set_line(first.gpio, to_first);
    let b2 = b1.set_line(second.gpio, to_second);
    lemma_change_sets_line(b, first, to_first);
    lemma_always_stage(b, stage_1, holds);
    lemma_change_sets_line(b1, second, to_second);
    lemma_always_stage(b1, stage_2, holds);
    lemma_always_concat(b, stage_1, stage_2, holds);
    lemma_change_sets_duty(b2, m, speed);
    lemma_always_stage(b2, stage_3, holds);
    lemma_always_concat(b, stage_1 + stage_2, stage_3, holds);
}

/// No write among `effects` raises line `gpio`.
pub open spec fn never_raises(effects: Seq<Effect>, gpio: u8) -> bool {
    forall|i: int|
        0 <= i < effects.len() ==> #[trigger] effects[i] != (Effect::SetLevel {
            gpio,
            level: Level::High,
        })
}

/// What raises line `gpio` in neither of two pieces raises it in neither of both.
pub proof fn lemma_never_raises_concat(first: Seq<Effect>, rest: Seq<Effect>, gpio: u8)
    requires
        never_raises(first, gpio),
        never_raises(rest, gpio),
    ensures
        never_raises(first + rest, gpio),
{
    assert forall|i: int| 0 <= i < (first + rest).len() implies #[trigger] (first + rest)[i] != (
    Effect::SetLevel { gpio, level: Level::High }) by {
        if i < first.len() {
            assert((first + rest)[i] == first[i]);
        } else {
            assert((first + rest)[i] == rest[i - first.len()]);
        }
    }
}

/// Two lines that are not both high stay so while neither is raised.
pub proof fn lemma_unraised_never_both_high(b: Board, effects: Seq<Effect>, in_1: u8, in_2: u8)
    requires
        !b.both_high(in_1, in_2),
        never_raises(effects, in_1),
        never_raises(effects, in_2),
    ensures
        b.never_both_high(effects, in_1, in_2),
    decreases effects.len(),
{
    let holds = one_low(in_1, in_2);
    if effects.len() == 0 {
        lemma_always_stage(b, effects, holds);
    } else {
        let before = effects.drop_last();
        let last = effects.last();
        assert(forall|i: int| 0 <= i < before.len() ==> before[i] == effects[i]);
        lemma_unraised_never_both_high(b, before, in_1, in_2);
        let reached = b.perform_all(before);
        assert(holds(reached)) by {
            assert(before.take(before.len() as int) == before);
        }
        lemma_perform_one(reached, last);
        assert(last == effects[effects.len() - 1]);
        assert(holds(reached.perform(last)));
        lemma_always_stage(reached, seq![last], holds);
        lemma_always_concat(b, before, seq![last], holds);
        assert(before + seq![last] == effects);
    }
}

/// Performing a single write.
pub proof fn lemma_perform_one(b: Board, effect: Effect)
    ensures
        b.perform_all(seq![effect]) == b.perform(effect),
{
    assert(seq![effect].first() == effect);
    assert(seq![effect].drop_first().len() == 0);
    assert(b.perform(effect).perform_all(seq![effect].drop_first()) == b.perform(effect));
}

} // verus!
