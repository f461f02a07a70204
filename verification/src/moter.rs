//! One motor of the driver chip: two direction lines and a PWM channel.

use vstd::prelude::*;
use crate::action::{MoterSpeed, Rolling};
use crate::board::{
    lemma_always_concat, lemma_moter_stages, lemma_never_raises_concat, never_raises, one_low,
    Board,
};
use crate::effect::{
    duty_writes, issued, lemma_duty_writes_concat, lemma_duty_writes_issued, record, Channel,
    Effect, Level,
};
use crate::pin::{OutPin, PinState};

verus! {

/// What is known of one motor: its two direction lines, its PWM channel and
/// the speed last written to that channel.
pub struct MoterState {
    pub in_1: PinState,
    pub in_2: PinState,
    pub channel: Channel,
    pub speed: MoterSpeed,
}

impl MoterState {
    /// The two direction lines are different lines.
    pub open spec fn wf(self) -> bool {
        self.in_1.gpio != self.in_2.gpio
    }

    /// Both direction lines are high: the state that the driver chip must never see.
    pub open spec fn both_high(self) -> bool {
        self.in_1.level == Level::High && self.in_2.level == Level::High
    }

    /// The duty-cycle write needed to run at `speed`: none when the channel is
    /// at that speed already.
    pub open spec fn duty_change(self, speed: MoterSpeed) -> Option<Effect> {
        if self.speed == speed {
            None
        } else {
            Some(Effect::SetDuty { channel: self.channel, percent: speed.percent() })
        }
    }

    /// The motor turning clockwise at `speed`: `in_1` low, `in_2` high.
    pub open spec fn cw(self, speed: MoterSpeed) -> MoterState {
        MoterState {
            in_1: self.in_1.at(Level::Low),
            in_2: self.in_2.at(Level::High),
            channel: self.channel,
            speed,
        }
    }

    /// The writes that take the motor to `cw(speed)`: `in_1` is lowered before
    /// `in_2` is raised, and the duty cycle follows the direction.
    pub open spec fn cw_effects(self, speed: MoterSpeed) -> Seq<Effect> {
        issued(self.in_1.change(Level::Low)) + issued(self.in_2.change(Level::High)) + issued(
            self.duty_change(speed),
        )
    }

    /// The motor turning counter-clockwise at `speed`: `in_1` high, `in_2` low.
    pub open spec fn ccw(self, speed: MoterSpeed) -> MoterState {
        MoterState {
            in_1: self.in_1.at(Level::High),
            in_2: self.in_2.at(Level::Low),
            channel: self.channel,
            speed,
        }
    }

    /// The writes that take the motor to `ccw(speed)`: `in_2` is lowered before
    /// `in_1` is raised, and the duty cycle follows the direction.
    pub open spec fn ccw_effects(self, speed: MoterSpeed) -> Seq<Effect> {
        issued(self.in_2.change(Level::Low)) + issued(self.in_1.change(Level::High)) + issued(
            self.duty_change(speed),
        )
    }

    /// The motor driven in direction `rolling` at `speed`.
    pub open spec fn apply(self, rolling: Rolling, speed: MoterSpeed) -> MoterState {
        match rolling {
            Rolling::Normal => self.cw(speed),
            Rolling::Reverse => self.ccw(speed),
        }
    }

    /// The writes that take the motor to `apply(rolling, speed)`.
    pub open spec fn apply_effects(self, rolling: Rolling, speed: MoterSpeed) -> Seq<Effect> {
        match rolling {
            Rolling::Normal => self.cw_effects(speed),
            Rolling::Reverse => self.ccw_effects(speed),
        }
    }

    /// The motor after `requests`, each a direction and a speed, first to last.
    pub open spec fn apply_all(self, requests: Seq<(Rolling, MoterSpeed)>) -> MoterState
        decreases requests.len(),
    {
        if requests.len() == 0 {
            self
        } else {
            self.apply(requests.first().0, requests.first().1).apply_all(requests.drop_first())
        }
    }

    /// The writes that `requests` take, in the order issued.
    pub open spec fn apply_all_effects(self, requests: Seq<(Rolling, MoterSpeed)>) -> Seq<Effect>
        decreases requests.len(),
    {
        if requests.len() == 0 {
            Seq::empty()
        } else {
            self.apply_effects(requests.first().0, requests.first().1) + self.apply(
                requests.first().0,
                requests.first().1,
            ).apply_all_effects(requests.drop_first())
        }
    }

    /// The motor at rest: both direction lines low, speed `Stop`.
    pub open spec fn stop(self) -> MoterState {
        MoterState {
            in_1: self.in_1.at(Level::Low),
            in_2: self.in_2.at(Level::Low),
            channel: self.channel,
            speed: MoterSpeed::Stop,
        }
    }

    /// The writes that take the motor to `stop()`.
    pub open spec fn stop_effects(self) -> Seq<Effect> {
        issued(self.in_1.change(Level::Low)) + issued(self.in_2.change(Level::Low)) + issued(
            self.duty_change(MoterSpeed::Stop),
        )
    }
}

/// Why a motor could not be set up.
#[derive(Clone, Copy, Debug, PartialEq, Eq, Structural)]
pub enum Error {
    /// The line with this BCM number is already in use.
    PinUsed(u8),
}

/// One motor, owning its two direction lines and its PWM channel.
pub struct Moter {
    in_1: OutPin,
    in_2: OutPin,
    channel: Channel,
    speed: MoterSpeed,
}

impl View for Moter {
    type V = MoterState;

    closed spec fn view(&self) -> MoterState {
        MoterState {
            in_1: self.in_1@,
            in_2: self.in_2@,
            channel: self.channel,
            speed: self.speed,
        }
    }
}

impl Moter {
    /// Sets up a motor on the lines `gpio_in_1` and `gpio_in_2`, found driving
    /// `in_1` and `in_2`, and on `channel`, which must be at duty cycle zero.
    ///
    /// The motor starts at speed `Stop`. One line cannot serve as both
    /// direction lines: then the second is reported as in use.
    pub fn new(gpio_in_1: u8, gpio_in_2: u8, channel: Channel, in_1: Level, in_2: Level) -> (made:
        Result<Moter, Error>)
        ensures
            gpio_in_1 != gpio_in_2 ==> made is Ok && made->Ok_0@ == (MoterState {
                in_1: PinState { gpio: gpio_in_1, level: in_1 },
                in_2: PinState { gpio: gpio_in_2, level: in_2 },
                channel,
                speed: MoterSpeed::Stop,
            }),
            gpio_in_1 == gpio_in_2 ==> made == Err::<Moter, Error>(Error::PinUsed(gpio_in_2)),
            made is Ok ==> made->Ok_0@.wf(),
    {
        if gpio_in_1 == gpio_in_2 {
            return Err(Error::PinUsed(gpio_in_2));
        }
        let in_1 = OutPin::new(gpio_in_1, in_1);
        let in_2 = OutPin::new(gpio_in_2, in_2);
        Ok(Moter { in_1, in_2, channel, speed: MoterSpeed::Stop })
    }

    /// Brings the PWM channel to `speed` unless it is there already.
    fn speed_to_duty_cycle(&mut self, speed: MoterSpeed) -> (effect: Option<Effect>)
        ensures
            final(self)@ == (MoterState { speed, ..old(self)@ }),
            effect == old(self)@.duty_change(speed),
    {
        if self.speed == speed {
            return None;
        }
        let percent = speed.duty_cycle_percent();
        self.speed = speed;
        Some(Effect::SetDuty { channel: self.channel, percent })
    }

    /// Turns the motor counter-clockwise at `speed`.
    fn ccw(&mut self, speed: MoterSpeed) -> (effects: Vec<Effect>)
        ensures
            final(self)@ == old(self)@.ccw(speed),
            effects@ == old(self)@.ccw_effects(speed),
    {
        let mut effects = Vec::new();
        record(&mut effects, self.in_2.change_low());
        record(&mut effects, self.in_1.change_high());
        record(&mut effects, self.speed_to_duty_cycle(speed));
        effects
    }

    /// Turns the motor clockwise at `speed`.
    fn cw(&mut self, speed: MoterSpeed) -> (effects: Vec<Effect>)
        ensures
            final(self)@ == old(self)@.cw(speed),
            effects@ == old(self)@.cw_effects(speed),
    {
        let mut effects = Vec::new();
        record(&mut effects, self.in_1.change_low());
        record(&mut effects, self.in_2.change_high());
        record(&mut effects, self.speed_to_duty_cycle(speed));
        effects
    }

    /// Drives the motor in direction `rolling` at `speed` and returns the
    /// writes to perform, in order.
    pub fn apply(&mut self, rolling: Rolling, speed: MoterSpeed) -> (effects: Vec<Effect>)
        ensures
            final(self)@ == old(self)@.apply(rolling, speed),
            effects@ == old(self)@.apply_effects(rolling, speed),
            old(self)@.wf() ==> final(self)@.wf(),
            !final(self)@.both_high(),
    {
        match rolling {
            Rolling::Normal => self.cw(speed),
            Rolling::Reverse => self.ccw(speed),
        }
    }

    /// Brings the motor to rest and returns the writes to perform, in order.
    pub fn stop(&mut self) -> (effects: Vec<Effect>)
        ensures
            final(self)@ == old(self)@.stop(),
            effects@ == old(self)@.stop_effects(),
            old(self)@.wf() ==> final(self)@.wf(),
            !final(self)@.both_high(),
    {
        let mut effects = Vec::new();
        record(&mut effects, self.in_1.change_low());
        record(&mut effects, self.in_2.change_low());
        record(&mut effects, self.speed_to_duty_cycle(MoterSpeed::Stop));
        effects
    }

    /// The first direction line.
    pub fn in_1(&self) -> (pin: &OutPin)
        ensures
            pin@ == self@.in_1,
    {
        &self.in_1
    }

    /// The second direction line.
    pub fn in_2(&self) -> (pin: &OutPin)
        ensures
            pin@ == self@.in_2,
    {
        &self.in_2
    }

    /// The PWM channel that sets the speed.
    pub fn channel(&self) -> (channel: Channel)
        ensures
            channel == self@.channel,
    {
        self.channel
    }

    /// The speed last written to the channel.
    pub fn speed(&self) -> (speed: MoterSpeed)
        ensures
            speed == self@.speed,
    {
        self.speed
    }
}

/// A duty-cycle write is issued exactly when the requested speed differs from
/// the speed that the channel is at; no operation issues more than one.
pub proof fn lemma_duty_written_on_change(m: MoterState, rolling: Rolling, speed: MoterSpeed)
    ensures
        duty_writes(m.apply_effects(rolling, speed)) == if m.speed == speed {
            0nat
        } else {
            1nat
        },
        duty_writes(m.stop_effects()) == if m.speed == MoterSpeed::Stop {
            0nat
        } else {
            1nat
        },
{
    lemma_duty_writes_of_stages(
        m.in_1.change(Level::Low),
        m.in_2.change(Level::High),
        m.duty_change(speed),
    );
    lemma_duty_writes_of_stages(
        m.in_2.change(Level::Low),
        m.in_1.change(Level::High),
        m.duty_change(speed),
    );
    lemma_duty_writes_of_stages(
        m.in_1.change(Level::Low),
        m.in_2.change(Level::Low),
        m.duty_change(MoterSpeed::Stop),
    );
}

/// Counts the duty-cycle writes of three stages that issue at most one write each.
proof fn lemma_duty_writes_of_stages(a: Option<Effect>, b: Option<Effect>, c: Option<Effect>)
    ensures
        duty_writes(issued(a) + issued(b) + issued(c)) == duty_writes(issued(a)) + duty_writes(
            issued(b),
        ) + duty_writes(issued(c)),
        duty_writes(issued(a)) == if a is Some && a->Some_0 is SetDuty {
            1nat
        } else {
            0nat
        },
        duty_writes(issued(b)) == if b is Some && b->Some_0 is SetDuty {
            1nat
        } else {
            0nat
        },
        duty_writes(issued(c)) == if c is Some && c->Some_0 is SetDuty {
            1nat
        } else {
            0nat
        },
{
    lemma_duty_writes_concat(issued(a), issued(b));
    lemma_duty_writes_concat(issued(a) + issued(b), issued(c));
    lemma_duty_writes_issued(a);
    lemma_duty_writes_issued(b);
    lemma_duty_writes_issued(c);
}

/// Two requests in a row for the same speed write the duty cycle once
/// between them, and not at all when the channel was at that speed before;
/// the second request never writes it.
pub proof fn lemma_duty_written_once(
    m: MoterState,
    first: Rolling,
    second: Rolling,
    speed: MoterSpeed,
)
    ensures
        duty_writes(m.apply(first, speed).apply_effects(second, speed)) == 0,
        duty_writes(m.apply_effects(first, speed)) + duty_writes(
            m.apply(first, speed).apply_effects(second, speed),
        ) == if m.speed == speed {
            0nat
        } else {
            1nat
        },
{
    lemma_duty_written_on_change(m, first, speed);
    lemma_duty_written_on_change(m.apply(first, speed), second, speed);
}

/// A request repeated changes nothing and writes nothing.
pub proof fn lemma_apply_twice_is_silent(m: MoterState, rolling: Rolling, speed: MoterSpeed)
    ensures
        m.apply(rolling, speed).apply(rolling, speed) == m.apply(rolling, speed),
        m.apply(rolling, speed).apply_effects(rolling, speed) == Seq::<Effect>::empty(),
        m.stop().stop() == m.stop(),
        m.stop().stop_effects() == Seq::<Effect>::empty(),
{
}

/// Every duty-cycle write that a motor issues goes to its own channel and
/// carries the fixed duty cycle of the requested speed: 0 for `Stop`, 30 for
/// `Slow`, 50 for `Middle` and 70 for `High`, which rises with the speed.
pub proof fn lemma_duty_follows_speed(m: MoterState, rolling: Rolling, speed: MoterSpeed, i: int)
    requires
        0 <= i < m.apply_effects(rolling, speed).len(),
        m.apply_effects(rolling, speed)[i] is SetDuty,
    ensures
        m.apply_effects(rolling, speed)[i] == (Effect::SetDuty {
            channel: m.channel,
            percent: speed.percent(),
        }),
        speed.percent() == match speed {
            MoterSpeed::Stop => 0u8,
            MoterSpeed::Slow => 30u8,
            MoterSpeed::Middle => 50u8,
            MoterSpeed::High => 70u8,
        },
        forall|slower: MoterSpeed| slower.rank() <= speed.rank() ==> slower.percent() <= speed.percent(),
{
}

/// Whatever state a motor was in, after a request it is never left with both
/// direction lines high, and its wiring is as before.
pub proof fn lemma_apply_leaves_one_line_low(m: MoterState, rolling: Rolling, speed: MoterSpeed)
    ensures
        !m.apply(rolling, speed).both_high(),
        !m.stop().both_high(),
        m.wf() ==> m.apply(rolling, speed).wf() && m.stop().wf(),
{
}

/// The mirror is true to the hardware: on a board that shows the motor, the
/// writes of an operation leave the lines and the channel of the motor as
/// the motor then mirrors them, and every other line and channel as it was.
pub proof fn lemma_board_follows_moter(
    b: Board,
    m: MoterState,
    rolling: Rolling,
    speed: MoterSpeed,
)
    requires
        m.wf(),
        b.shows_moter(m),
    ensures
        b.perform_all(m.apply_effects(rolling, speed)) == b.with_moter(m.apply(rolling, speed)),
        b.perform_all(m.stop_effects()) == b.with_moter(m.stop()),
        b.with_moter(m.apply(rolling, speed)).shows_moter(m.apply(rolling, speed)),
        b.with_moter(m.stop()).shows_moter(m.stop()),
{
    let holds = |x: Board| true;
    lemma_moter_stages(b, m, m.in_1, Level::Low, m.in_2, Level::High, speed, holds);
    lemma_moter_stages(b, m, m.in_2, Level::Low, m.in_1, Level::High, speed, holds);
    lemma_moter_stages(b, m, m.in_1, Level::Low, m.in_2, Level::Low, MoterSpeed::Stop, holds);
    assert(b.set_line(m.in_2.gpio, Level::Low).set_line(m.in_1.gpio, Level::High).lines
        == b.set_line(m.in_1.gpio, Level::High).set_line(m.in_2.gpio, Level::Low).lines);
}

/// A motor that does not have both direction lines high never gets them
/// both high: not after an operation, and at no point while the writes of
/// the operation are performed one by one.
pub proof fn lemma_operation_never_shorts(
    b: Board,
    m: MoterState,
    rolling: Rolling,
    speed: MoterSpeed,
)
    requires
        m.wf(),
        b.shows_moter(m),
        !m.both_high(),
    ensures
        b.never_both_high(m.apply_effects(rolling, speed), m.in_1.gpio, m.in_2.gpio),
        b.never_both_high(m.stop_effects(), m.in_1.gpio, m.in_2.gpio),
{
    let holds = one_low(m.in_1.gpio, m.in_2.gpio);
    lemma_moter_stages(b, m, m.in_1, Level::Low, m.in_2, Level::High, speed, holds);
    lemma_moter_stages(b, m, m.in_2, Level::Low, m.in_1, Level::High, speed, holds);
    lemma_moter_stages(b, m, m.in_1, Level::Low, m.in_2, Level::Low, MoterSpeed::Stop, holds);
}

/// A motor writes to no line but its own two, and coming to rest it raises none.
pub proof fn lemma_moter_raises_own_lines_only(
    m: MoterState,
    rolling: Rolling,
    speed: MoterSpeed,
    gpio: u8,
)
    ensures
        gpio != m.in_1.gpio && gpio != m.in_2.gpio ==> never_raises(
            m.apply_effects(rolling, speed),
            gpio,
        ),
        never_raises(m.stop_effects(), gpio),
{
    let duty = issued(m.duty_change(speed));
    let rest = issued(m.duty_change(MoterSpeed::Stop));
    let low_1 = issued(m.in_1.change(Level::Low));
    let low_2 = issued(m.in_2.change(Level::Low));
    let high_1 = issued(m.in_1.change(Level::High));
    let high_2 = issued(m.in_2.change(Level::High));
    lemma_never_raises_concat(low_1, low_2, gpio);
    lemma_never_raises_concat(low_1 + low_2, rest, gpio);
    if gpio != m.in_1.gpio && gpio != m.in_2.gpio {
        lemma_never_raises_concat(low_1, high_2, gpio);
        lemma_never_raises_concat(low_1 + high_2, duty, gpio);
        lemma_never_raises_concat(low_2, high_1, gpio);
        lemma_never_raises_concat(low_2 + high_1, duty, gpio);
    }
}

/// The same for any sequence of requests: at no point while their writes
/// are performed are both direction lines high.
pub proof fn lemma_requests_never_short(
    b: Board,
    m: MoterState,
    requests: Seq<(Rolling, MoterSpeed)>,
)
    requires
        m.wf(),
        b.shows_moter(m),
        !m.both_high(),
    ensures
        b.never_both_high(m.apply_all_effects(requests), m.in_1.gpio, m.in_2.gpio),
        b.perform_all(m.apply_all_effects(requests)).shows_moter(m.apply_all(requests)),
    decreases requests.len(),
{
    let holds = one_low(m.in_1.gpio, m.in_2.gpio);
    if requests.len() == 0 {
        assert(m.apply_all_effects(requests).take(0) == m.apply_all_effects(requests));
    } else {
        let (rolling, speed) = requests.first();
        let next = m.apply(rolling, speed);
        let first = m.apply_effects(rolling, speed);
        lemma_operation_never_shorts(b, m, rolling, speed);
        lemma_board_follows_moter(b, m, rolling, speed);
        lemma_requests_never_short(b.perform_all(first), next, requests.drop_first());
        lemma_always_concat(b, first, next.apply_all_effects(requests.drop_first()), holds);
    }
}

} // verus!
