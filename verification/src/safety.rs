//! What the writes of the chassis do to the board: they keep the mirror
//! true, and they never drive both direction lines of a motor high.

use vstd::prelude::*;
use crate::action::{Action, MoterSpeed, Rolling};
use crate::board::{
    lemma_always_concat, lemma_change_sets_line, lemma_never_raises_concat,
    lemma_perform_all_concat, lemma_unraised_never_both_high, lemma_write_sets_line, never_raises,
    one_low, Board,
};
use crate::effect::{issued, Effect, Level};
use crate::moter::{
    lemma_board_follows_moter, lemma_moter_raises_own_lines_only, lemma_operation_never_shorts,
    MoterState,
};
use crate::pin::PinState;
use crate::robo::{
    lemma_wf_is_kept, lemma_wf_is_kept_by_runs, track, track_effects, Event, Lifecycle, RoboState,
};

verus! {

impl RoboState {
    /// Neither motor has both direction lines high.
    pub open spec fn no_short(self) -> bool {
        !self.moter_left.both_high() && !self.moter_right.both_high()
    }
}

impl Board {
    /// At no point while `effects` are performed has a motor of `s` both
    /// direction lines high.
    pub open spec fn never_shorts(self, effects: Seq<Effect>, s: RoboState) -> bool {
        &&& self.never_both_high(effects, s.moter_left.in_1.gpio, s.moter_left.in_2.gpio)
        &&& self.never_both_high(effects, s.moter_right.in_1.gpio, s.moter_right.in_2.gpio)
    }
}

/// The seven lines of a chassis differ from one another.
pub proof fn lemma_lines_differ(s: RoboState)
    requires
        s.wf(),
    ensures
        s.moter_left.wf(),
        s.moter_right.wf(),
        s.moter_left.in_1.gpio != s.moter_right.in_1.gpio,
        s.moter_left.in_1.gpio != s.moter_right.in_2.gpio,
        s.moter_left.in_2.gpio != s.moter_right.in_1.gpio,
        s.moter_left.in_2.gpio != s.moter_right.in_2.gpio,
        s.stby.gpio != s.moter_left.in_1.gpio,
        s.stby.gpio != s.moter_left.in_2.gpio,
        s.stby.gpio != s.moter_right.in_1.gpio,
        s.stby.gpio != s.moter_right.in_2.gpio,
        s.left_eye.gpio != s.moter_left.in_1.gpio,
        s.left_eye.gpio != s.moter_left.in_2.gpio,
        s.left_eye.gpio != s.moter_right.in_1.gpio,
        s.left_eye.gpio != s.moter_right.in_2.gpio,
        s.left_eye.gpio != s.stby.gpio,
        s.right_eye.gpio != s.moter_left.in_1.gpio,
        s.right_eye.gpio != s.moter_left.in_2.gpio,
        s.right_eye.gpio != s.moter_right.in_1.gpio,
        s.right_eye.gpio != s.moter_right.in_2.gpio,
        s.right_eye.gpio != s.stby.gpio,
        s.right_eye.gpio != s.left_eye.gpio,
{
    let lines = s.lines();
    assert(lines[0] == s.moter_left.in_1.gpio);
    assert(lines[1] == s.moter_left.in_2.gpio);
    assert(lines[2] == s.moter_right.in_1.gpio);
    assert(lines[3] == s.moter_right.in_2.gpio);
    assert(lines[4] == s.stby.gpio);
    assert(lines[5] == s.left_eye.gpio);
    assert(lines[6] == s.right_eye.gpio);
}

/// A write to one line leaves a motor on other lines as the board showed it.
proof fn lemma_line_beside_moter(b: Board, gpio: u8, level: Level, m: MoterState)
    requires
        b.shows_moter(m),
        gpio != m.in_1.gpio,
        gpio != m.in_2.gpio,
    ensures
        b.set_line(gpio, level).shows_moter(m),
{
}

/// The writes of one motor leave a line of its own as the board showed it.
proof fn lemma_moter_beside_line(b: Board, m: MoterState, pin: PinState)
    requires
        b.shows_pin(pin),
        pin.gpio != m.in_1.gpio,
        pin.gpio != m.in_2.gpio,
    ensures
        b.with_moter(m).shows_pin(pin),
{
}

/// The writes of one motor leave the other motor as the board showed it.
proof fn lemma_moter_beside_moter(b: Board, m: MoterState, other: MoterState)
    requires
        b.shows_moter(other),
        m.channel != other.channel,
        m.in_1.gpio != other.in_1.gpio,
        m.in_1.gpio != other.in_2.gpio,
        m.in_2.gpio != other.in_1.gpio,
        m.in_2.gpio != other.in_2.gpio,
    ensures
        b.with_moter(m).shows_moter(other),
{
}

/// Enabling the driver on a board that shows the chassis.
proof fn lemma_ready_on_board(b: Board, s: RoboState)
    requires
        s.wf(),
        b.shows(s),
    ensures
        b.perform_all(s.ready_effects()).shows(s.ready()),
{
    lemma_lines_differ(s);
    if !s.stopped {
        lemma_change_sets_line(b, s.stby, Level::High);
        lemma_line_beside_moter(b, s.stby.gpio, Level::High, s.moter_left);
        lemma_line_beside_moter(b, s.stby.gpio, Level::High, s.moter_right);
    }
}

/// Moving the left track on a board that shows the chassis.
proof fn lemma_move_left_on_board(b: Board, s: RoboState, rolling: Rolling, speed: MoterSpeed)
    requires
        s.wf(),
        b.shows(s),
    ensures
        b.perform_all(s.move_left_crawler_effects(rolling, speed)).shows(
            s.move_left_crawler(rolling, speed),
        ),
{
    lemma_lines_differ(s);
    let moved = track(s.moter_left, rolling, speed);
    lemma_board_follows_moter(b, s.moter_left, rolling, speed);
    assert(b.perform_all(track_effects(s.moter_left, rolling, speed)) == b.with_moter(moved));
    lemma_moter_beside_moter(b, moved, s.moter_right);
    lemma_moter_beside_line(b, moved, s.stby);
    lemma_moter_beside_line(b, moved, s.left_eye);
    lemma_moter_beside_line(b, moved, s.right_eye);
}

/// Moving the right track on a board that shows the chassis.
proof fn lemma_move_right_on_board(b: Board, s: RoboState, rolling: Rolling, speed: MoterSpeed)
    requires
        s.wf(),
        b.shows(s),
    ensures
        b.perform_all(s.move_right_crawler_effects(rolling, speed)).shows(
            s.move_right_crawler(rolling, speed),
        ),
{
    lemma_lines_differ(s);
    let moved = track(s.moter_right, rolling, speed);
    lemma_board_follows_moter(b, s.moter_right, rolling, speed);
    assert(b.perform_all(track_effects(s.moter_right, rolling, speed)) == b.with_moter(moved));
    lemma_moter_beside_moter(b, moved, s.moter_left);
    lemma_moter_beside_line(b, moved, s.stby);
    lemma_moter_beside_line(b, moved, s.left_eye);
    lemma_moter_beside_line(b, moved, s.right_eye);
}

/// Two forced writes to the lights on a board that shows the chassis.
proof fn lemma_lights_on_board(b: Board, s: RoboState, left: Level, right: Level)
    requires
        s.wf(),
        b.shows(s),
    ensures
        b.perform_all(seq![s.left_eye.write(left), s.right_eye.write(right)]).shows(
            RoboState { left_eye: s.left_eye.at(left), right_eye: s.right_eye.at(right), ..s },
        ),
{
    lemma_lines_differ(s);
    let first = seq![s.left_eye.write(left)];
    let second = seq![s.right_eye.write(right)];
    assert(seq![s.left_eye.write(left), s.right_eye.write(right)] == first + second);
    lemma_write_sets_line(b, s.left_eye, left);
    let b1 = b.set_line(s.left_eye.gpio, left);
    lemma_write_sets_line(b1, s.right_eye, right);
    let b2 = b1.set_line(s.right_eye.gpio, right);
    lemma_perform_all_concat(b, first, second);
    lemma_line_beside_moter(b, s.left_eye.gpio, left, s.moter_left);
    lemma_line_beside_moter(b, s.left_eye.gpio, left, s.moter_right);
    lemma_line_beside_moter(b1, s.right_eye.gpio, right, s.moter_left);
    lemma_line_beside_moter(b1, s.right_eye.gpio, right, s.moter_right);
    assert(b2.shows_pin(s.stby));
}

/// Shutting down on a board that shows the chassis.
proof fn lemma_stop_on_board(b: Board, s: RoboState)
    requires
        s.wf(),
        b.shows(s),
    ensures
        b.perform_all(s.stop_effects()).shows(s.stop()),
{
    lemma_lines_differ(s);
    let stage_0 = issued(s.stby.change(Level::Low));
    let stage_1 = s.moter_left.stop_effects();
    let stage_2 = s.moter_right.stop_effects();
    let stage_3 = s.eye_light_down_effects();
    // the driver is disabled
    let s1 = RoboState { stby: s.stby.at(Level::Low), ..s };
    let b1 = b.perform_all(stage_0);
    assert(b1.shows(s1)) by {
        lemma_change_sets_line(b, s.stby, Level::Low);
        lemma_line_beside_moter(b, s.stby.gpio, Level::Low, s.moter_left);
        lemma_line_beside_moter(b, s.stby.gpio, Level::Low, s.moter_right);
    }
    // the left motor is brought to rest
    let s2 = RoboState { moter_left: s.moter_left.stop(), ..s1 };
    let b2 = b1.perform_all(stage_1);
    assert(b2.shows(s2)) by {
        lemma_board_follows_moter(b1, s.moter_left, Rolling::Normal, MoterSpeed::Stop);
        lemma_moter_beside_moter(b1, s.moter_left.stop(), s.moter_right);
        lemma_moter_beside_line(b1, s.moter_left.stop(), s1.stby);
        lemma_moter_beside_line(b1, s.moter_left.stop(), s.left_eye);
        lemma_moter_beside_line(b1, s.moter_left.stop(), s.right_eye);
    }
    // the right motor is brought to rest
    let s3 = RoboState { moter_right: s.moter_right.stop(), ..s2 };
    let b3 = b2.perform_all(stage_2);
    assert(b3.shows(s3)) by {
        lemma_board_follows_moter(b2, s.moter_right, Rolling::Normal, MoterSpeed::Stop);
        lemma_moter_beside_moter(b2, s.moter_right.stop(), s2.moter_left);
        lemma_moter_beside_line(b2, s.moter_right.stop(), s1.stby);
        lemma_moter_beside_line(b2, s.moter_right.stop(), s.left_eye);
        lemma_moter_beside_line(b2, s.moter_right.stop(), s.right_eye);
    }
    // the lights are forced off
    let b4 = b3.perform_all(stage_3);
    assert(b4.shows(s.stop())) by {
        assert(s3.wf()) by {
            assert(s3.lines() == s.lines());
        }
        lemma_lights_on_board(b3, s3, Level::Low, Level::Low);
    }
    lemma_perform_all_concat(b, stage_0, stage_1);
    lemma_perform_all_concat(b, stage_0 + stage_1, stage_2);
    lemma_perform_all_concat(b, stage_0 + stage_1 + stage_2, stage_3);
}

/// The mirror is true to the hardware: on a board that shows the chassis,
/// the writes of any operation leave a board that shows the chassis as the
/// operation has left it.
pub proof fn lemma_board_follows(b: Board, s: RoboState, action: Action, event: Event)
    requires
        s.wf(),
        b.shows(s),
    ensures
        b.perform_all(s.ready_effects()).shows(s.ready()),
        b.perform_all(s.stop_effects()).shows(s.stop()),
        b.perform_all(s.dispatch_effects(action)).shows(s.dispatch(action)),
        b.perform_all(s.step_effects(event)).shows(s.step(event)),
{
    lemma_ready_on_board(b, s);
    lemma_stop_on_board(b, s);
    lemma_dispatch_on_board(b, s, action);
    if s.lifecycle() == Lifecycle::Ready {
        match event {
            Event::Received(received) => lemma_dispatch_on_board(b, s, received),
            Event::Closed => {},
        }
    }
}

/// Carrying an action out on a board that shows the chassis.
proof fn lemma_dispatch_on_board(b: Board, s: RoboState, action: Action)
    requires
        s.wf(),
        b.shows(s),
    ensures
        b.perform_all(s.dispatch_effects(action)).shows(s.dispatch(action)),
{
    match action {
        Action::MoveLeftCrawler(rolling, speed) => lemma_move_left_on_board(b, s, rolling, speed),
        Action::MoveRightCrawler(rolling, speed) => lemma_move_right_on_board(
            b,
            s,
            rolling,
            speed,
        ),
        Action::ToggleEye => lemma_lights_on_board(
            b,
            s,
            s.left_eye.level.flipped(),
            s.right_eye.level.flipped(),
        ),
        Action::Stop => lemma_stop_on_board(b, s),
        Action::NoOp => {},
    }
}

/// The same over everything that the loop receives and over a whole run.
pub proof fn lemma_board_follows_runs(b: Board, s: RoboState, actions: Seq<Action>)
    requires
        s.wf(),
        b.shows(s),
    ensures
        b.perform_all(s.feed_effects(actions)).shows(s.feed(actions)),
        b.perform_all(s.wakeup_effects(actions)).shows(s.wakeup(actions)),
{
    lemma_feed_on_board(b, s, actions);
    let woken = s.ready();
    let fed = woken.feed(actions);
    lemma_board_follows(b, s, Action::NoOp, Event::Closed);
    lemma_wf_is_kept(s, Action::NoOp, Event::Closed);
    let b1 = b.perform_all(s.ready_effects());
    lemma_feed_on_board(b1, woken, actions);
    let b2 = b1.perform_all(woken.feed_effects(actions));
    lemma_wf_is_kept_by_runs(woken, actions);
    lemma_board_follows(b2, fed, Action::NoOp, Event::Closed);
    lemma_perform_all_concat(b, s.ready_effects(), woken.feed_effects(actions));
    lemma_perform_all_concat(
        b,
        s.ready_effects() + woken.feed_effects(actions),
        fed.step_effects(Event::Closed),
    );
}

/// The board follows the chassis through everything that the loop receives.
proof fn lemma_feed_on_board(b: Board, s: RoboState, actions: Seq<Action>)
    requires
        s.wf(),
        b.shows(s),
    ensures
        b.perform_all(s.feed_effects(actions)).shows(s.feed(actions)),
    decreases actions.len(),
{
    if actions.len() > 0 {
        let event = Event::Received(actions.first());
        lemma_board_follows(b, s, Action::NoOp, event);
        lemma_wf_is_kept(s, Action::NoOp, event);
        lemma_feed_on_board(
            b.perform_all(s.step_effects(event)),
            s.step(event),
            actions.drop_first(),
        );
        lemma_perform_all_concat(
            b,
            s.step_effects(event),
            s.step(event).feed_effects(actions.drop_first()),
        );
    }
}

/// Shutting down raises no line.
proof fn lemma_stop_raises_nothing(s: RoboState, gpio: u8)
    ensures
        never_raises(s.stop_effects(), gpio),
{
    let stage_0 = issued(s.stby.change(Level::Low));
    let stage_1 = s.moter_left.stop_effects();
    let stage_2 = s.moter_right.stop_effects();
    let stage_3 = s.eye_light_down_effects();
    lemma_moter_raises_own_lines_only(s.moter_left, Rolling::Normal, MoterSpeed::Stop, gpio);
    lemma_moter_raises_own_lines_only(s.moter_right, Rolling::Normal, MoterSpeed::Stop, gpio);
    lemma_never_raises_concat(stage_0, stage_1, gpio);
    lemma_never_raises_concat(stage_0 + stage_1, stage_2, gpio);
    lemma_never_raises_concat(stage_0 + stage_1 + stage_2, stage_3, gpio);
}

/// A motor is never shorted by what is written for the rest of the chassis:
/// no operation raises a direction line of a motor but a request to move
/// that motor's own track.
proof fn lemma_raises_only_on_request(s: RoboState, action: Action, m: MoterState, gpio: u8)
    requires
        s.wf(),
        m == s.moter_left || m == s.moter_right,
        gpio == m.in_1.gpio || gpio == m.in_2.gpio,
        m == s.moter_left ==> !(action is MoveLeftCrawler),
        m == s.moter_right ==> !(action is MoveRightCrawler),
    ensures
        never_raises(s.ready_effects(), gpio),
        never_raises(s.dispatch_effects(action), gpio),
{
    lemma_lines_differ(s);
    match action {
        Action::MoveLeftCrawler(rolling, speed) => {
            lemma_moter_raises_own_lines_only(s.moter_left, rolling, speed, gpio);
        },
        Action::MoveRightCrawler(rolling, speed) => {
            lemma_moter_raises_own_lines_only(s.moter_right, rolling, speed, gpio);
        },
        Action::ToggleEye => {},
        Action::Stop => lemma_stop_raises_nothing(s, gpio),
        Action::NoOp => {},
    }
}

/// Carrying an action out never shorts motor `m` of the chassis.
proof fn lemma_dispatch_never_shorts(b: Board, s: RoboState, action: Action, m: MoterState)
    requires
        s.wf(),
        b.shows(s),
        s.no_short(),
        m == s.moter_left || m == s.moter_right,
    ensures
        b.never_both_high(s.ready_effects(), m.in_1.gpio, m.in_2.gpio),
        b.never_both_high(s.stop_effects(), m.in_1.gpio, m.in_2.gpio),
        b.never_both_high(s.dispatch_effects(action), m.in_1.gpio, m.in_2.gpio),
{
    lemma_lines_differ(s);
    lemma_raises_only_on_request(s, Action::NoOp, m, m.in_1.gpio);
    lemma_raises_only_on_request(s, Action::NoOp, m, m.in_2.gpio);
    lemma_unraised_never_both_high(b, s.ready_effects(), m.in_1.gpio, m.in_2.gpio);
    lemma_stop_raises_nothing(s, m.in_1.gpio);
    lemma_stop_raises_nothing(s, m.in_2.gpio);
    lemma_unraised_never_both_high(b, s.stop_effects(), m.in_1.gpio, m.in_2.gpio);
    match action {
        Action::MoveLeftCrawler(rolling, speed) if m == s.moter_left => {
            lemma_operation_never_shorts(b, m, rolling, speed);
        },
        Action::MoveRightCrawler(rolling, speed) if m == s.moter_right => {
            lemma_operation_never_shorts(b, m, rolling, speed);
        },
        _ => {
            lemma_raises_only_on_request(s, action, m, m.in_1.gpio);
            lemma_raises_only_on_request(s, action, m, m.in_2.gpio);
            lemma_unraised_never_both_high(
                b,
                s.dispatch_effects(action),
                m.in_1.gpio,
                m.in_2.gpio,
            );
        },
    }
}

/// No operation shorts a motor: on a board that shows a chassis of which
/// neither motor has both direction lines high, at no point while the
/// writes of an operation are performed one by one has a motor both
/// direction lines high, and the operation leaves the chassis so.
pub proof fn lemma_never_shorts(b: Board, s: RoboState, action: Action, event: Event)
    requires
        s.wf(),
        b.shows(s),
        s.no_short(),
    ensures
        b.never_shorts(s.ready_effects(), s),
        b.never_shorts(s.stop_effects(), s),
        b.never_shorts(s.dispatch_effects(action), s),
        b.never_shorts(s.step_effects(event), s),
        s.ready().no_short(),
        s.stop().no_short(),
        s.dispatch(action).no_short(),
        s.step(event).no_short(),
{
    lemma_dispatch_never_shorts(b, s, action, s.moter_left);
    lemma_dispatch_never_shorts(b, s, action, s.moter_right);
    match event {
        Event::Received(received) => {
            lemma_dispatch_never_shorts(b, s, received, s.moter_left);
            lemma_dispatch_never_shorts(b, s, received, s.moter_right);
        },
        Event::Closed => {},
    }
    if s.lifecycle() != Lifecycle::Ready {
        lemma_unraised_never_both_high(
            b,
            Seq::<Effect>::empty(),
            s.moter_left.in_1.gpio,
            s.moter_left.in_2.gpio,
        );
        lemma_unraised_never_both_high(
            b,
            Seq::<Effect>::empty(),
            s.moter_right.in_1.gpio,
            s.moter_right.in_2.gpio,
        );
    }
}

/// No run of the loop shorts a motor: at no point while the writes of a
/// whole run are performed one by one has a motor both direction lines
/// high, whatever is received.
pub proof fn lemma_runs_never_short(b: Board, s: RoboState, actions: Seq<Action>)
    requires
        s.wf(),
        b.shows(s),
        s.no_short(),
    ensures
        b.never_shorts(s.feed_effects(actions), s),
        b.never_shorts(s.wakeup_effects(actions), s),
{
    lemma_feed_never_shorts(b, s, actions);
    let woken = s.ready();
    let fed = woken.feed(actions);
    let left = one_low(s.moter_left.in_1.gpio, s.moter_left.in_2.gpio);
    let right = one_low(s.moter_right.in_1.gpio, s.moter_right.in_2.gpio);
    // the driver is enabled
    lemma_never_shorts(b, s, Action::NoOp, Event::Closed);
    lemma_board_follows(b, s, Action::NoOp, Event::Closed);
    lemma_wf_is_kept(s, Action::NoOp, Event::Closed);
    let b1 = b.perform_all(s.ready_effects());
    // the actions are answered
    lemma_feed_never_shorts(b1, woken, actions);
    lemma_feed_on_board(b1, woken, actions);
    lemma_wf_is_kept_by_runs(woken, actions);
    lemma_always_concat(b, s.ready_effects(), woken.feed_effects(actions), left);
    lemma_always_concat(b, s.ready_effects(), woken.feed_effects(actions), right);
    let b2 = b1.perform_all(woken.feed_effects(actions));
    // the channel is closed
    lemma_never_shorts(b2, fed, Action::NoOp, Event::Closed);
    lemma_always_concat(
        b,
        s.ready_effects() + woken.feed_effects(actions),
        fed.step_effects(Event::Closed),
        left,
    );
    lemma_always_concat(
        b,
        s.ready_effects() + woken.feed_effects(actions),
        fed.step_effects(Event::Closed),
        right,
    );
}

/// Nothing that the loop receives shorts a motor.
proof fn lemma_feed_never_shorts(b: Board, s: RoboState, actions: Seq<Action>)
    requires
        s.wf(),
        b.shows(s),
        s.no_short(),
    ensures
        b.never_shorts(s.feed_effects(actions), s),
        s.feed(actions).no_short(),
    decreases actions.len(),
{
    let left = one_low(s.moter_left.in_1.gpio, s.moter_left.in_2.gpio);
    let right = one_low(s.moter_right.in_1.gpio, s.moter_right.in_2.gpio);
    if actions.len() == 0 {
        lemma_unraised_never_both_high(
            b,
            Seq::<Effect>::empty(),
            s.moter_left.in_1.gpio,
            s.moter_left.in_2.gpio,
        );
        lemma_unraised_never_both_high(
            b,
            Seq::<Effect>::empty(),
            s.moter_right.in_1.gpio,
            s.moter_right.in_2.gpio,
        );
    } else {
        let event = Event::Received(actions.first());
        let next = s.step(event);
        lemma_never_shorts(b, s, Action::NoOp, event);
        lemma_board_follows(b, s, Action::NoOp, event);
        lemma_wf_is_kept(s, Action::NoOp, event);
        lemma_feed_never_shorts(b.perform_all(s.step_effects(event)), next, actions.drop_first());
        lemma_always_concat(b, s.step_effects(event), next.feed_effects(actions.drop_first()), left);
        lemma_always_concat(
            b,
            s.step_effects(event),
            next.feed_effects(actions.drop_first()),
            right,
        );
    }
}

} // verus!
