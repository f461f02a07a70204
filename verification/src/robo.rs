//! The chassis: two motors, the shared enable line and two indicator lights.

use vstd::prelude::*;
use crate::action::{Action, MoterSpeed, Rolling};
use crate::effect::{issued, record, Channel, Effect, Level};
use crate::moter::{Moter, MoterState};
use crate::pin::{OutPin, PinState};

verus! {

/// BCM number of the line wired to the driver's AI2 input.
pub const GPIO_AI2: u8 = 24;

/// BCM number of the line wired to the driver's AI1 input.
pub const GPIO_AI1: u8 = 23;

/// BCM number of the line wired to the driver's standby input.
pub const GPIO_STBY: u8 = 25;

/// BCM number of the line wired to the driver's BI1 input.
pub const GPIO_BI1: u8 = 26;

/// BCM number of the line wired to the driver's BI2 input.
pub const GPIO_BI2: u8 = 13;

/// BCM number of the line wired to the right light.
pub const GPIO_RIGHT_EYE: u8 = 27;

/// BCM number of the line wired to the left light.
pub const GPIO_LEFT_EYE: u8 = 17;

/// The level at which each line of the chassis was found when it was acquired.
#[derive(Clone, Copy, Debug, PartialEq, Eq, Structural)]
pub struct Levels {
    pub ai1: Level,
    pub ai2: Level,
    pub bi1: Level,
    pub bi2: Level,
    pub stby: Level,
    pub left_eye: Level,
    pub right_eye: Level,
}

/// Where the chassis stands in its life.
#[derive(Clone, Copy, Debug, PartialEq, Eq, Structural)]
pub enum Lifecycle {
    /// The driver has not been enabled yet.
    Uninitialized,
    /// The driver is enabled and actions are processed.
    Ready,
    /// The chassis was shut down; nothing is processed any more.
    Stopped,
}

/// What the actuation loop sees when it waits on the command channel.
#[derive(Clone, Copy, Debug, PartialEq, Eq, Structural)]
pub enum Event {
    /// The channel delivered an action.
    Received(Action),
    /// The channel was closed: no producer is left.
    Closed,
}

/// The motor `m` after a request to move its track: at rest for speed `Stop`,
/// driven otherwise.
pub open spec fn track(m: MoterState, rolling: Rolling, speed: MoterSpeed) -> MoterState {
    if speed == MoterSpeed::Stop {
        m.stop()
    } else {
        m.apply(rolling, speed)
    }
}

/// The writes that take the motor `m` to `track(m, rolling, speed)`.
pub open spec fn track_effects(m: MoterState, rolling: Rolling, speed: MoterSpeed) -> Seq<Effect> {
    if speed == MoterSpeed::Stop {
        m.stop_effects()
    } else {
        m.apply_effects(rolling, speed)
    }
}

/// What is known of the chassis.
pub struct RoboState {
    pub moter_right: MoterState,
    pub moter_left: MoterState,
    pub stby: PinState,
    pub left_eye: PinState,
    pub right_eye: PinState,
    pub stopped: bool,
}

impl RoboState {
    /// The chassis as it is set up on lines found at `levels`.
    pub open spec fn initial(levels: Levels) -> RoboState {
        RoboState {
            moter_right: MoterState {
                in_1: PinState { gpio: GPIO_BI1, level: levels.bi1 },
                in_2: PinState { gpio: GPIO_BI2, level: levels.bi2 },
                channel: Channel::Pwm1,
                speed: MoterSpeed::Stop,
            },
            moter_left: MoterState {
                in_1: PinState { gpio: GPIO_AI1, level: levels.ai1 },
                in_2: PinState { gpio: GPIO_AI2, level: levels.ai2 },
                channel: Channel::Pwm0,
                speed: MoterSpeed::Stop,
            },
            stby: PinState { gpio: GPIO_STBY, level: levels.stby },
            left_eye: PinState { gpio: GPIO_LEFT_EYE, level: levels.left_eye },
            right_eye: PinState { gpio: GPIO_RIGHT_EYE, level: levels.right_eye },
            stopped: false,
        }
    }

    /// The BCM numbers of the seven lines that the chassis owns.
    pub open spec fn lines(self) -> Seq<u8> {
        seq![
            self.moter_left.in_1.gpio,
            self.moter_left.in_2.gpio,
            self.moter_right.in_1.gpio,
            self.moter_right.in_2.gpio,
            self.stby.gpio,
            self.left_eye.gpio,
            self.right_eye.gpio,
        ]
    }

    /// `other` owns the same lines and channels, each in the same place.
    pub open spec fn same_wiring(self, other: RoboState) -> bool {
        &&& self.lines() == other.lines()
        &&& self.moter_left.in_1.gpio == other.moter_left.in_1.gpio
        &&& self.moter_left.in_2.gpio == other.moter_left.in_2.gpio
        &&& self.moter_right.in_1.gpio == other.moter_right.in_1.gpio
        &&& self.moter_right.in_2.gpio == other.moter_right.in_2.gpio
        &&& self.stby.gpio == other.stby.gpio
        &&& self.left_eye.gpio == other.left_eye.gpio
        &&& self.right_eye.gpio == other.right_eye.gpio
        &&& self.moter_left.channel == other.moter_left.channel
        &&& self.moter_right.channel == other.moter_right.channel
    }

    /// No line and no PWM channel is owned twice, and a chassis that was shut
    /// down keeps the driver disabled.
    pub open spec fn wf(self) -> bool {
        &&& self.lines().no_duplicates()
        &&& self.moter_left.channel != self.moter_right.channel
        &&& self.stopped ==> self.stby.level == Level::Low
    }

    /// `Stopped` once shut down; before that `Ready` exactly while the enable
    /// line is high.
    pub open spec fn lifecycle(self) -> Lifecycle {
        if self.stopped {
            Lifecycle::Stopped
        } else if self.stby.level == Level::High {
            Lifecycle::Ready
        } else {
            Lifecycle::Uninitialized
        }
    }

    /// The driver is disabled, both motors are at rest and both lights are off.
    pub open spec fn shut_down(self) -> bool {
        &&& self.stopped
        &&& self.stby.level == Level::Low
        &&& self.moter_left == self.moter_left.stop()
        &&& self.moter_right == self.moter_right.stop()
        &&& self.left_eye.level == Level::Low
        &&& self.right_eye.level == Level::Low
    }

    /// The chassis with the driver enabled; a chassis that was shut down stays as it is.
    pub open spec fn ready(self) -> RoboState {
        if self.stopped {
            self
        } else {
            RoboState { stby: self.stby.at(Level::High), ..self }
        }
    }

    /// The writes that take the chassis to `ready()`.
    pub open spec fn ready_effects(self) -> Seq<Effect> {
        if self.stopped {
            Seq::empty()
        } else {
            issued(self.stby.change(Level::High))
        }
    }

    /// The chassis shut down.
    pub open spec fn stop(self) -> RoboState {
        RoboState {
            moter_right: self.moter_right.stop(),
            moter_left: self.moter_left.stop(),
            stby: self.stby.at(Level::Low),
            left_eye: self.left_eye.at(Level::Low),
            right_eye: self.right_eye.at(Level::Low),
            stopped: true,
        }
    }

    /// The writes that shut the chassis down: the driver is disabled first,
    /// then the left and the right motor are brought to rest, then both lights
    /// are driven low.
    pub open spec fn stop_effects(self) -> Seq<Effect> {
        issued(self.stby.change(Level::Low)) + self.moter_left.stop_effects()
            + self.moter_right.stop_effects() + self.eye_light_down_effects()
    }

    /// The chassis after a request to move the left track.
    pub open spec fn move_left_crawler(self, rolling: Rolling, speed: MoterSpeed) -> RoboState {
        RoboState { moter_left: track(self.moter_left, rolling, speed), ..self }
    }

    /// The writes that move the left track.
    pub open spec fn move_left_crawler_effects(self, rolling: Rolling, speed: MoterSpeed) -> Seq<
        Effect,
    > {
        track_effects(self.moter_left, rolling, speed)
    }

    /// The chassis after a request to move the right track.
    pub open spec fn move_right_crawler(self, rolling: Rolling, speed: MoterSpeed) -> RoboState {
        RoboState { moter_right: track(self.moter_right, rolling, speed), ..self }
    }

    /// The writes that move the right track.
    pub open spec fn move_right_crawler_effects(self, rolling: Rolling, speed: MoterSpeed) -> Seq<
        Effect,
    > {
        track_effects(self.moter_right, rolling, speed)
    }

    /// The chassis with both lights inverted.
    pub open spec fn eye_toggle(self) -> RoboState {
        RoboState {
            left_eye: self.left_eye.at(self.left_eye.level.flipped()),
            right_eye: self.right_eye.at(self.right_eye.level.flipped()),
            ..self
        }
    }

    /// The writes that invert both lights, left first.
    pub open spec fn eye_toggle_effects(self) -> Seq<Effect> {
        seq![
            self.left_eye.write(self.left_eye.level.flipped()),
            self.right_eye.write(self.right_eye.level.flipped()),
        ]
    }

    /// The chassis with both lights off.
    pub open spec fn eye_light_down(self) -> RoboState {
        RoboState {
            left_eye: self.left_eye.at(Level::Low),
            right_eye: self.right_eye.at(Level::Low),
            ..self
        }
    }

    /// The writes that force both lights off, left first: both are written
    /// whatever their level.
    pub open spec fn eye_light_down_effects(self) -> Seq<Effect> {
        seq![self.left_eye.write(Level::Low), self.right_eye.write(Level::Low)]
    }

    /// The chassis after `action` was carried out.
    pub open spec fn dispatch(self, action: Action) -> RoboState {
        match action {
            Action::MoveLeftCrawler(rolling, speed) => self.move_left_crawler(rolling, speed),
            Action::MoveRightCrawler(rolling, speed) => self.move_right_crawler(rolling, speed),
            Action::ToggleEye => self.eye_toggle(),
            Action::Stop => self.stop(),
            Action::NoOp => self,
        }
    }

    /// The writes that carry `action` out.
    pub open spec fn dispatch_effects(self, action: Action) -> Seq<Effect> {
        match action {
            Action::MoveLeftCrawler(rolling, speed) => self.move_left_crawler_effects(
                rolling,
                speed,
            ),
            Action::MoveRightCrawler(rolling, speed) => self.move_right_crawler_effects(
                rolling,
                speed,
            ),
            Action::ToggleEye => self.eye_toggle_effects(),
            Action::Stop => self.stop_effects(),
            Action::NoOp => Seq::empty(),
        }
    }

    /// The chassis after the actuation loop has seen `event`. Only a chassis
    /// that is `Ready` processes events: it carries a received action out and
    /// shuts down when the channel is closed.
    pub open spec fn step(self, event: Event) -> RoboState {
        if self.lifecycle() != Lifecycle::Ready {
            self
        } else {
            match event {
                Event::Received(action) => self.dispatch(action),
                Event::Closed => self.stop(),
            }
        }
    }

    /// The writes with which the actuation loop answers `event`.
    pub open spec fn step_effects(self, event: Event) -> Seq<Effect> {
        if self.lifecycle() != Lifecycle::Ready {
            Seq::empty()
        } else {
            match event {
                Event::Received(action) => self.dispatch_effects(action),
                Event::Closed => self.stop_effects(),
            }
        }
    }

    /// The chassis after the loop has received `actions`, first to last.
    pub open spec fn feed(self, actions: Seq<Action>) -> RoboState
        decreases actions.len(),
    {
        if actions.len() == 0 {
            self
        } else {
            self.step(Event::Received(actions.first())).feed(actions.drop_first())
        }
    }

    /// The writes with which the loop answers `actions`, in the order issued.
    pub open spec fn feed_effects(self, actions: Seq<Action>) -> Seq<Effect>
        decreases actions.len(),
    {
        if actions.len() == 0 {
            Seq::empty()
        } else {
            self.step_effects(Event::Received(actions.first())) + self.step(
                Event::Received(actions.first()),
            ).feed_effects(actions.drop_first())
        }
    }

    /// The chassis after a whole run of the actuation loop on a channel that
    /// delivers `actions` and is then closed.
    pub open spec fn wakeup(self, actions: Seq<Action>) -> RoboState {
        self.ready().feed(actions).step(Event::Closed)
    }

    /// The writes of a whole run of the actuation loop, in the order issued.
    pub open spec fn wakeup_effects(self, actions: Seq<Action>) -> Seq<Effect> {
        self.ready_effects() + self.ready().feed_effects(actions) + self.ready().feed(
            actions,
        ).step_effects(Event::Closed)
    }
}

/// The chassis, sole owner of its motors, its enable line and its lights.
pub struct Robo {
    moter_right: Moter,
    moter_left: Moter,
    stby: OutPin,
    left_eye: OutPin,
    right_eye: OutPin,
    stopped: bool,
}

impl View for Robo {
    type V = RoboState;

    closed spec fn view(&self) -> RoboState {
        RoboState {
            moter_right: self.moter_right@,
            moter_left: self.moter_left@,
            stby: self.stby@,
            left_eye: self.left_eye@,
            right_eye: self.right_eye@,
            stopped: self.stopped,
        }
    }
}

/// Moves the track of `moter`: brings it to rest for speed `Stop`, drives it otherwise.
fn move_crawler(moter: &mut Moter, rolling: Rolling, speed: MoterSpeed) -> (effects: Vec<Effect>)
    ensures
        final(moter)@ == track(old(moter)@, rolling, speed),
        effects@ == track_effects(old(moter)@, rolling, speed),
{
    if speed == MoterSpeed::Stop {
        return moter.stop();
    }
    moter.apply(rolling, speed)
}

impl Robo {
    /// Sets the chassis up on its seven lines, found at `levels`, and on its
    /// two PWM channels, which must be at duty cycle zero.
    pub fn new(levels: Levels) -> (robo: Robo)
        ensures
            robo@ == RoboState::initial(levels),
            robo@.wf(),
    {
        let moter_left = Moter::new(GPIO_AI1, GPIO_AI2, Channel::Pwm0, levels.ai1, levels.ai2);
        let moter_right = Moter::new(GPIO_BI1, GPIO_BI2, Channel::Pwm1, levels.bi1, levels.bi2);
        Robo {
            moter_right: moter_right.unwrap(),
            moter_left: moter_left.unwrap(),
            stby: OutPin::new(GPIO_STBY, levels.stby),
            left_eye: OutPin::new(GPIO_LEFT_EYE, levels.left_eye),
            right_eye: OutPin::new(GPIO_RIGHT_EYE, levels.right_eye),
            stopped: false,
        }
    }

    /// Enables the driver unless it is enabled already. A chassis that was
    /// shut down stays shut down.
    pub fn ready(&mut self) -> (effects: Vec<Effect>)
        ensures
            final(self)@ == old(self)@.ready(),
            effects@ == old(self)@.ready_effects(),
            old(self)@.wf() ==> final(self)@.wf(),
    {
        let ghost before = self@;
        let mut effects = Vec::new();
        if !self.stopped {
            record(&mut effects, self.stby.change_high());
        }
        proof {
            lemma_wf_is_kept(before, Action::NoOp, Event::Closed);
        }
        effects
    }

    /// Shuts the chassis down, whatever state it is in: disables the driver,
    /// brings both motors to rest and forces both lights off.
    pub fn stop(&mut self) -> (effects: Vec<Effect>)
        ensures
            final(self)@ == old(self)@.stop(),
            effects@ == old(self)@.stop_effects(),
            final(self)@.shut_down(),
            old(self)@.wf() ==> final(self)@.wf(),
    {
        let ghost before = self@;
        let mut effects = Vec::new();
        record(&mut effects, self.stby.change_low());
        let mut left = self.moter_left.stop();
        effects.append(&mut left);
        let mut right = self.moter_right.stop();
        effects.append(&mut right);
        let mut lights = self.eye_light_down();
        effects.append(&mut lights);
        self.stopped = true;
        proof {
            lemma_wf_is_kept(before, Action::NoOp, Event::Closed);
        }
        effects
    }

    /// Moves the left track: brings it to rest for speed `Stop`, drives it
    /// in direction `rolling` otherwise.
    pub fn move_left_crawler(&mut self, rolling: Rolling, speed: MoterSpeed) -> (effects: Vec<
        Effect,
    >)
        ensures
            final(self)@ == old(self)@.move_left_crawler(rolling, speed),
            effects@ == old(self)@.move_left_crawler_effects(rolling, speed),
            old(self)@.wf() ==> final(self)@.wf(),
    {
        let ghost before = self@;
        let effects = move_crawler(&mut self.moter_left, rolling, speed);
        proof {
            lemma_wf_is_kept(before, Action::MoveLeftCrawler(rolling, speed), Event::Closed);
        }
        effects
    }

    /// Moves the right track: brings it to rest for speed `Stop`, drives it
    /// in direction `rolling` otherwise.
    pub fn move_right_crawler(&mut self, rolling: Rolling, speed: MoterSpeed) -> (effects: Vec<
        Effect,
    >)
        ensures
            final(self)@ == old(self)@.move_right_crawler(rolling, speed),
            effects@ == old(self)@.move_right_crawler_effects(rolling, speed),
            old(self)@.wf() ==> final(self)@.wf(),
    {
        let ghost before = self@;
        let effects = move_crawler(&mut self.moter_right, rolling, speed);
        proof {
            lemma_wf_is_kept(before, Action::MoveRightCrawler(rolling, speed), Event::Closed);
        }
        effects
    }

    /// Inverts both lights.
    pub fn eye_toggle(&mut self) -> (effects: Vec<Effect>)
        ensures
            final(self)@ == old(self)@.eye_toggle(),
            effects@ == old(self)@.eye_toggle_effects(),
            old(self)@.wf() ==> final(self)@.wf(),
    {
        let ghost before = self@;
        let mut effects = Vec::new();
        effects.push(self.left_eye.toggle());
        effects.push(self.right_eye.toggle());
        proof {
            lemma_wf_is_kept(before, Action::ToggleEye, Event::Closed);
        }
        effects
    }

    /// Forces both lights off.
    pub fn eye_light_down(&mut self) -> (effects: Vec<Effect>)
        ensures
            final(self)@ == old(self)@.eye_light_down(),
            effects@ == old(self)@.eye_light_down_effects(),
            old(self)@.wf() ==> final(self)@.wf(),
    {
        let ghost before = self@;
        let mut effects = Vec::new();
        effects.push(self.left_eye.set_low());
        effects.push(self.right_eye.set_low());
        proof {
            assert(self@.lines() == before.lines());
        }
        effects
    }

    /// Carries `action` out and returns the writes to perform, in order.
    pub fn dispatch(&mut self, action: Action) -> (effects: Vec<Effect>)
        ensures
            final(self)@ == old(self)@.dispatch(action),
            effects@ == old(self)@.dispatch_effects(action),
            old(self)@.wf() ==> final(self)@.wf(),
    {
        match action {
            Action::MoveLeftCrawler(rolling, speed) => self.move_left_crawler(rolling, speed),
            Action::MoveRightCrawler(rolling, speed) => self.move_right_crawler(rolling, speed),
            Action::ToggleEye => self.eye_toggle(),
            Action::Stop => self.stop(),
            Action::NoOp => Vec::new(),
        }
    }

    /// One turn of the actuation loop: answers `event` and returns the writes
    /// to perform, in order.
    ///
    /// A chassis that is `Ready` carries a received action out and shuts down
    /// when the channel is closed. In any other state nothing is processed.
    pub fn step(&mut self, event: Event) -> (effects: Vec<Effect>)
        ensures
            final(self)@ == old(self)@.step(event),
            effects@ == old(self)@.step_effects(event),
            old(self)@.lifecycle() == Lifecycle::Ready && (event == Event::Closed || event
                == Event::Received(Action::Stop)) ==> final(self)@.shut_down(),
            old(self)@.wf() ==> final(self)@.wf(),
    {
        if !self.is_ready() {
            return Vec::new();
        }
        match event {
            Event::Received(action) => self.dispatch(action),
            Event::Closed => self.stop(),
        }
    }

    /// A whole run of the actuation loop on a channel that delivers `actions`
    /// and is then closed: enables the driver, answers each action in the
    /// order received until one shuts the chassis down, and shuts it down at
    /// the latest when the channel is closed. Returns every write of the run,
    /// in order.
    pub fn wakeup(&mut self, actions: &Vec<Action>) -> (effects: Vec<Effect>)
        ensures
            final(self)@ == old(self)@.wakeup(actions@),
            effects@ == old(self)@.wakeup_effects(actions@),
            !old(self)@.stopped ==> final(self)@.shut_down(),
            old(self)@.wf() ==> final(self)@.wf(),
    {
        proof {
            lemma_wf_is_kept_by_runs(self@, actions@);
        }
        let ghost woken = self@.ready();
        let mut effects = self.ready();
        let mut i: usize = 0;
        proof {
            assert(actions@.skip(0) == actions@);
        }
        while i < actions.len() && self.is_ready()
            invariant
                i <= actions.len(),
                woken.feed(actions@) == self@.feed(actions@.skip(i as int)),
                old(self)@.ready_effects() + woken.feed_effects(actions@) == effects@
                    + self@.feed_effects(actions@.skip(i as int)),
                !old(self)@.stopped ==> self@.lifecycle() == Lifecycle::Ready
                    || self@.shut_down(),
            decreases actions.len() - i,
        {
            proof {
                assert(actions@.skip(i as int).drop_first() == actions@.skip(i + 1));
            }
            let mut answer = self.step(Event::Received(actions[i]));
            effects.append(&mut answer);
            i += 1;
        }
        proof {
            if self@.lifecycle() != Lifecycle::Ready {
                lemma_feed_needs_ready(self@, actions@.skip(i as int));
            }
        }
        let mut last = self.step(Event::Closed);
        effects.append(&mut last);
        effects
    }

    /// The motor of the left track.
    pub fn moter_left(&self) -> (moter: &Moter)
        ensures
            moter@ == self@.moter_left,
    {
        &self.moter_left
    }

    /// The motor of the right track.
    pub fn moter_right(&self) -> (moter: &Moter)
        ensures
            moter@ == self@.moter_right,
    {
        &self.moter_right
    }

    /// The enable line of the driver.
    pub fn stby(&self) -> (pin: &OutPin)
        ensures
            pin@ == self@.stby,
    {
        &self.stby
    }

    /// The line of the left light.
    pub fn left_eye(&self) -> (pin: &OutPin)
        ensures
            pin@ == self@.left_eye,
    {
        &self.left_eye
    }

    /// The line of the right light.
    pub fn right_eye(&self) -> (pin: &OutPin)
        ensures
            pin@ == self@.right_eye,
    {
        &self.right_eye
    }

    /// Where the chassis stands in its life.
    pub fn lifecycle(&self) -> (lifecycle: Lifecycle)
        ensures
            lifecycle == self@.lifecycle(),
    {
        if self.stopped {
            Lifecycle::Stopped
        } else if self.stby.is_set_high() {
            Lifecycle::Ready
        } else {
            Lifecycle::Uninitialized
        }
    }

    /// True when the chassis processes events.
    pub fn is_ready(&self) -> (ready: bool)
        ensures
            ready == (self@.lifecycle() == Lifecycle::Ready),
    {
        !self.stopped && self.stby.is_set_high()
    }
}

/// A chassis as set up owns seven different lines and two different
/// channels, and is `Ready` exactly when it found the driver enabled.
pub proof fn lemma_initial_is_wf(levels: Levels)
    ensures
        RoboState::initial(levels).wf(),
        RoboState::initial(levels).lifecycle() == if levels.stby == Level::High {
            Lifecycle::Ready
        } else {
            Lifecycle::Uninitialized
        },
{
}

/// No operation changes which lines and channels the chassis owns, and none
/// enables the driver of a chassis that was shut down.
pub proof fn lemma_wf_is_kept(s: RoboState, action: Action, event: Event)
    ensures
        s.same_wiring(s.ready()),
        s.same_wiring(s.stop()),
        s.same_wiring(s.dispatch(action)),
        s.same_wiring(s.step(event)),
        s.wf() ==> s.ready().wf() && s.stop().wf() && s.dispatch(action).wf() && s.step(event).wf(),
{
    assert(s.ready().lines() == s.lines());
    assert(s.stop().lines() == s.lines());
    assert(s.dispatch(action).lines() == s.lines());
    assert(s.step(event).lines() == s.lines());
}

/// The same over a whole run of the loop.
pub proof fn lemma_wf_is_kept_by_runs(s: RoboState, actions: Seq<Action>)
    ensures
        s.same_wiring(s.feed(actions)),
        s.same_wiring(s.wakeup(actions)),
        s.wf() ==> s.feed(actions).wf() && s.wakeup(actions).wf(),
    decreases actions.len(),
{
    if actions.len() > 0 {
        lemma_wf_is_kept(s, actions.first(), Event::Received(actions.first()));
        lemma_wf_is_kept_by_runs(s.step(Event::Received(actions.first())), actions.drop_first());
    }
    lemma_wf_is_kept(s, Action::NoOp, Event::Closed);
    if actions.len() > 0 {
        lemma_wf_is_kept(s.ready(), actions.first(), Event::Received(actions.first()));
        lemma_wf_is_kept_by_runs(
            s.ready().step(Event::Received(actions.first())),
            actions.drop_first(),
        );
    }
    lemma_wf_is_kept(s.ready().feed(actions), Action::NoOp, Event::Closed);
}

/// The enable line is high exactly while the chassis is `Ready`.
pub proof fn lemma_enabled_iff_ready(s: RoboState)
    requires
        s.wf(),
    ensures
        s.stby.level == Level::High <==> s.lifecycle() == Lifecycle::Ready,
{
}

/// `Stopped` is final: a chassis that was shut down answers nothing, cannot
/// be enabled again, and stays `Stopped` whatever is asked of it.
pub proof fn lemma_stopped_is_final(s: RoboState, action: Action, event: Event)
    requires
        s.lifecycle() == Lifecycle::Stopped,
    ensures
        s.step(event) == s,
        s.step_effects(event) == Seq::<Effect>::empty(),
        s.ready() == s,
        s.ready_effects() == Seq::<Effect>::empty(),
        s.dispatch(action).lifecycle() == Lifecycle::Stopped,
        s.stop().lifecycle() == Lifecycle::Stopped,
{
}

/// The loop answers what it receives in the order received: the answer to
/// `first` followed by `rest` is the answer to `first`, then the answer to
/// `rest` of the chassis that `first` has left.
pub proof fn lemma_feed_in_order(s: RoboState, first: Seq<Action>, rest: Seq<Action>)
    ensures
        s.feed(first + rest) == s.feed(first).feed(rest),
        s.feed_effects(first + rest) == s.feed_effects(first) + s.feed(first).feed_effects(rest),
    decreases first.len(),
{
    if first.len() == 0 {
        assert(first + rest == rest);
    } else {
        assert((first + rest).first() == first.first());
        assert((first + rest).drop_first() == first.drop_first() + rest);
        lemma_feed_in_order(
            s.step(Event::Received(first.first())),
            first.drop_first(),
            rest,
        );
    }
}

/// No action is passed over: as long as no `Stop` was received, the action
/// at position `k` is carried out on the chassis that the actions before it
/// have left, and its writes follow theirs directly.
pub proof fn lemma_each_action_is_carried_out(s: RoboState, actions: Seq<Action>, k: int)
    requires
        s.lifecycle() == Lifecycle::Ready,
        0 <= k < actions.len(),
        forall|i: int| 0 <= i < k ==> actions[i] != Action::Stop,
    ensures
        s.feed(actions.take(k)).lifecycle() == Lifecycle::Ready,
        s.feed(actions.take(k + 1)) == s.feed(actions.take(k)).dispatch(actions[k]),
        s.feed_effects(actions.take(k + 1)) == s.feed_effects(actions.take(k)) + s.feed(
            actions.take(k),
        ).dispatch_effects(actions[k]),
{
    lemma_ready_until_stop(s, actions.take(k));
    assert(actions.take(k + 1) == actions.take(k) + seq![actions[k]]);
    lemma_feed_in_order(s, actions.take(k), seq![actions[k]]);
    lemma_feed_one(s.feed(actions.take(k)), actions[k]);
}

/// A chassis that is `Ready` stays `Ready` as long as no `Stop` is received.
pub proof fn lemma_ready_until_stop(s: RoboState, actions: Seq<Action>)
    requires
        s.lifecycle() == Lifecycle::Ready,
        forall|i: int| 0 <= i < actions.len() ==> actions[i] != Action::Stop,
    ensures
        s.feed(actions).lifecycle() == Lifecycle::Ready,
    decreases actions.len(),
{
    if actions.len() > 0 {
        assert(actions.first() == actions[0]);
        assert(forall|i: int|
            0 <= i < actions.drop_first().len() ==> actions.drop_first()[i] == actions[i + 1]);
        lemma_ready_until_stop(s.step(Event::Received(actions.first())), actions.drop_first());
    }
}

/// Receiving one action is one turn of the loop.
pub proof fn lemma_feed_one(s: RoboState, action: Action)
    ensures
        s.feed(seq![action]) == s.step(Event::Received(action)),
        s.feed_effects(seq![action]) == s.step_effects(Event::Received(action)),
{
    assert(seq![action].drop_first() == Seq::<Action>::empty());
    assert(seq![action].first() == action);
    let next = s.step(Event::Received(action));
    assert(next.feed(Seq::<Action>::empty()) == next);
    assert(next.feed_effects(Seq::<Action>::empty()) == Seq::<Effect>::empty());
}

/// `Stop` ends the run: the chassis is shut down and nothing that is
/// received after it is carried out.
pub proof fn lemma_nothing_after_stop(s: RoboState, later: Seq<Action>)
    requires
        s.lifecycle() == Lifecycle::Ready,
    ensures
        s.feed(seq![Action::Stop] + later) == s.stop(),
        s.feed_effects(seq![Action::Stop] + later) == s.stop_effects(),
        s.stop().shut_down(),
{
    lemma_feed_in_order(s, seq![Action::Stop], later);
    lemma_feed_one(s, Action::Stop);
    lemma_feed_needs_ready(s.stop(), later);
}

/// Every run of the loop on a chassis that was not shut down before ends
/// with the chassis shut down, whatever was received.
pub proof fn lemma_wakeup_ends_shut_down(s: RoboState, actions: Seq<Action>)
    requires
        !s.stopped,
    ensures
        s.wakeup(actions).shut_down(),
{
    lemma_feed_ends_ready_or_shut_down(s.ready(), actions);
}

/// While it runs, the loop leaves the chassis `Ready` or shut down.
pub proof fn lemma_feed_ends_ready_or_shut_down(s: RoboState, actions: Seq<Action>)
    requires
        s.lifecycle() == Lifecycle::Ready || s.shut_down(),
    ensures
        s.feed(actions).lifecycle() == Lifecycle::Ready || s.feed(actions).shut_down(),
    decreases actions.len(),
{
    if actions.len() > 0 {
        lemma_feed_ends_ready_or_shut_down(
            s.step(Event::Received(actions.first())),
            actions.drop_first(),
        );
    }
}

/// Inverting the lights twice leaves both as they were.
pub proof fn lemma_eye_toggle_twice(s: RoboState)
    ensures
        s.eye_toggle().eye_toggle() == s,
{
}

/// A chassis that is not `Ready` processes nothing: whatever is received
/// leaves it as it is and issues no write.
pub proof fn lemma_feed_needs_ready(s: RoboState, actions: Seq<Action>)
    requires
        s.lifecycle() != Lifecycle::Ready,
    ensures
        s.feed(actions) == s,
        s.feed_effects(actions) == Seq::<Effect>::empty(),
    decreases actions.len(),
{
    if actions.len() > 0 {
        lemma_feed_needs_ready(s, actions.drop_first());
    }
}

} // verus!
