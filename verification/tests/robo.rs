use camrobot::robo::{
    GPIO_AI1, GPIO_AI2, GPIO_BI1, GPIO_BI2, GPIO_LEFT_EYE, GPIO_RIGHT_EYE, GPIO_STBY,
};
use camrobot::{
    Action, Channel, Effect, Event, Level, Levels, Lifecycle, MoterSpeed, Robo, Rolling,
};

fn all_low() -> Levels {
    Levels {
        ai1: Level::Low,
        ai2: Level::Low,
        bi1: Level::Low,
        bi2: Level::Low,
        stby: Level::Low,
        left_eye: Level::Low,
        right_eye: Level::Low,
    }
}

fn woken() -> Robo {
    let mut robo = Robo::new(all_low());
    robo.ready();
    robo
}

fn line(gpio: u8, level: Level) -> Effect {
    Effect::SetLevel { gpio, level }
}

fn duty(channel: Channel, percent: u8) -> Effect {
    Effect::SetDuty { channel, percent }
}

fn assert_shut_down(robo: &Robo) {
    assert_eq!(robo.lifecycle(), Lifecycle::Stopped);
    assert_eq!(robo.stby().level(), Level::Low);
    assert_eq!(robo.moter_left().speed(), MoterSpeed::Stop);
    assert_eq!(robo.moter_right().speed(), MoterSpeed::Stop);
    assert_eq!(robo.moter_left().in_1().level(), Level::Low);
    assert_eq!(robo.moter_left().in_2().level(), Level::Low);
    assert_eq!(robo.moter_right().in_1().level(), Level::Low);
    assert_eq!(robo.moter_right().in_2().level(), Level::Low);
    assert_eq!(robo.left_eye().level(), Level::Low);
    assert_eq!(robo.right_eye().level(), Level::Low);
}

#[test]
fn the_chassis_is_wired_as_the_driver_is() {
    assert_eq!(
        (GPIO_AI1, GPIO_AI2, GPIO_BI1, GPIO_BI2, GPIO_STBY, GPIO_LEFT_EYE, GPIO_RIGHT_EYE),
        (23, 24, 26, 13, 25, 17, 27)
    );
    let robo = Robo::new(all_low());
    assert_eq!(robo.moter_left().in_1().gpio(), 23);
    assert_eq!(robo.moter_left().in_2().gpio(), 24);
    assert_eq!(robo.moter_left().channel(), Channel::Pwm0);
    assert_eq!(robo.moter_right().in_1().gpio(), 26);
    assert_eq!(robo.moter_right().in_2().gpio(), 13);
    assert_eq!(robo.moter_right().channel(), Channel::Pwm1);
    assert_eq!(robo.stby().gpio(), 25);
    assert_eq!(robo.left_eye().gpio(), 17);
    assert_eq!(robo.right_eye().gpio(), 27);
    assert_eq!(robo.lifecycle(), Lifecycle::Uninitialized);
    assert!(!robo.is_ready());
}

#[test]
fn the_chassis_takes_the_levels_it_finds() {
    let robo = Robo::new(Levels { ai2: Level::High, right_eye: Level::High, ..all_low() });
    assert_eq!(robo.moter_left().in_1().level(), Level::Low);
    assert_eq!(robo.moter_left().in_2().level(), Level::High);
    assert_eq!(robo.right_eye().level(), Level::High);
    assert_eq!(robo.left_eye().level(), Level::Low);
    assert_eq!(robo.moter_left().speed(), MoterSpeed::Stop);
    assert_eq!(robo.moter_right().speed(), MoterSpeed::Stop);
}

#[test]
fn a_chassis_found_enabled_is_ready() {
    let mut robo = Robo::new(Levels { stby: Level::High, ..all_low() });
    assert_eq!(robo.lifecycle(), Lifecycle::Ready);
    assert!(robo.ready().is_empty());
}

#[test]
fn ready_enables_the_driver_once() {
    let mut robo = Robo::new(all_low());
    assert_eq!(robo.ready(), vec![line(25, Level::High)]);
    assert_eq!(robo.lifecycle(), Lifecycle::Ready);
    assert!(robo.is_ready());
    assert!(robo.ready().is_empty());
    assert_eq!(robo.stby().level(), Level::High);
}

#[test]
fn a_chassis_that_was_shut_down_cannot_be_enabled() {
    let mut robo = woken();
    robo.stop();
    assert!(robo.ready().is_empty());
    assert_eq!(robo.lifecycle(), Lifecycle::Stopped);
    assert_eq!(robo.stby().level(), Level::Low);
}

#[test]
fn the_same_move_twice_writes_once() {
    let mut robo = woken();
    let action = Action::MoveLeftCrawler(Rolling::Normal, MoterSpeed::Middle);
    let first = robo.step(Event::Received(action));
    let second = robo.step(Event::Received(action));
    assert_eq!(first, vec![line(24, Level::High), duty(Channel::Pwm0, 50)]);
    assert!(second.is_empty());
    assert_eq!(robo.moter_left().in_1().level(), Level::Low);
    assert_eq!(robo.moter_left().in_2().level(), Level::High);
    assert_eq!(robo.moter_left().speed(), MoterSpeed::Middle);
    assert_eq!(robo.lifecycle(), Lifecycle::Ready);
}

#[test]
fn a_direction_flip_lowers_before_it_raises() {
    let mut robo = woken();
    let first = robo.step(Event::Received(Action::MoveRightCrawler(
        Rolling::Reverse,
        MoterSpeed::High,
    )));
    let second = robo.step(Event::Received(Action::MoveRightCrawler(
        Rolling::Normal,
        MoterSpeed::Slow,
    )));
    assert_eq!(first, vec![line(26, Level::High), duty(Channel::Pwm1, 70)]);
    assert_eq!(
        second,
        vec![line(26, Level::Low), line(13, Level::High), duty(Channel::Pwm1, 30)]
    );
    assert_eq!(robo.moter_right().in_1().level(), Level::Low);
    assert_eq!(robo.moter_right().in_2().level(), Level::High);
    assert_eq!(robo.moter_right().speed(), MoterSpeed::Slow);
    assert_eq!(robo.moter_left().speed(), MoterSpeed::Stop);
}

#[test]
fn two_toggles_restore_the_lights() {
    let mut robo = Robo::new(Levels { stby: Level::High, left_eye: Level::High, ..all_low() });
    let first = robo.step(Event::Received(Action::ToggleEye));
    assert_eq!(first, vec![line(17, Level::Low), line(27, Level::High)]);
    assert_eq!(robo.left_eye().level(), Level::Low);
    assert_eq!(robo.right_eye().level(), Level::High);
    let second = robo.step(Event::Received(Action::ToggleEye));
    assert_eq!(second, vec![line(17, Level::High), line(27, Level::Low)]);
    assert_eq!(robo.left_eye().level(), Level::High);
    assert_eq!(robo.right_eye().level(), Level::Low);
}

#[test]
fn stop_ends_the_run_and_nothing_follows() {
    let mut robo = Robo::new(all_low());
    let actions = vec![
        Action::MoveLeftCrawler(Rolling::Normal, MoterSpeed::High),
        Action::MoveRightCrawler(Rolling::Reverse, MoterSpeed::High),
        Action::ToggleEye,
        Action::Stop,
        Action::MoveLeftCrawler(Rolling::Reverse, MoterSpeed::Slow),
        Action::ToggleEye,
    ];
    let effects = robo.wakeup(&actions);
    assert_eq!(
        effects,
        vec![
            line(25, Level::High),
            line(24, Level::High),
            duty(Channel::Pwm0, 70),
            line(26, Level::High),
            duty(Channel::Pwm1, 70),
            line(17, Level::High),
            line(27, Level::High),
            line(25, Level::Low),
            line(24, Level::Low),
            duty(Channel::Pwm0, 0),
            line(26, Level::Low),
            duty(Channel::Pwm1, 0),
            line(17, Level::Low),
            line(27, Level::Low),
        ]
    );
    assert_shut_down(&robo);
}

#[test]
fn a_move_at_speed_stop_rests_one_track_only() {
    let mut robo = woken();
    robo.move_left_crawler(Rolling::Normal, MoterSpeed::High);
    robo.move_right_crawler(Rolling::Normal, MoterSpeed::Middle);
    let effects = robo.step(Event::Received(Action::MoveLeftCrawler(
        Rolling::Reverse,
        MoterSpeed::Stop,
    )));
    assert_eq!(effects, vec![line(24, Level::Low), duty(Channel::Pwm0, 0)]);
    assert_eq!(robo.moter_left().in_1().level(), Level::Low);
    assert_eq!(robo.moter_left().in_2().level(), Level::Low);
    assert_eq!(robo.moter_left().speed(), MoterSpeed::Stop);
    assert_eq!(robo.moter_right().speed(), MoterSpeed::Middle);
    assert_eq!(robo.lifecycle(), Lifecycle::Ready);
}

#[test]
fn no_op_does_nothing() {
    let mut robo = woken();
    robo.move_left_crawler(Rolling::Normal, MoterSpeed::Slow);
    assert!(robo.step(Event::Received(Action::NoOp)).is_empty());
    assert!(robo.dispatch(Action::NoOp).is_empty());
    assert_eq!(robo.moter_left().speed(), MoterSpeed::Slow);
    assert_eq!(robo.lifecycle(), Lifecycle::Ready);
}

#[test]
fn stop_tears_everything_down_in_order() {
    let mut robo = Robo::new(Levels {
        ai1: Level::High,
        bi2: Level::High,
        stby: Level::High,
        left_eye: Level::High,
        ..all_low()
    });
    let effects = robo.stop();
    assert_eq!(
        effects,
        vec![
            line(25, Level::Low),
            line(23, Level::Low),
            line(13, Level::Low),
            line(17, Level::Low),
            line(27, Level::Low),
        ]
    );
    assert_shut_down(&robo);
}

#[test]
fn stop_forces_the_lights_off_every_time() {
    let mut robo = woken();
    robo.stop();
    assert_eq!(robo.stop(), vec![line(17, Level::Low), line(27, Level::Low)]);
    assert_eq!(robo.eye_light_down(), vec![line(17, Level::Low), line(27, Level::Low)]);
    assert_shut_down(&robo);
}

#[test]
fn eye_toggle_inverts_each_light() {
    let mut robo = Robo::new(Levels { right_eye: Level::High, ..all_low() });
    assert_eq!(robo.eye_toggle(), vec![line(17, Level::High), line(27, Level::Low)]);
    assert_eq!(robo.left_eye().level(), Level::High);
    assert_eq!(robo.right_eye().level(), Level::Low);
}

#[test]
fn closing_the_channel_shuts_the_chassis_down() {
    let mut robo = woken();
    robo.move_left_crawler(Rolling::Normal, MoterSpeed::High);
    robo.move_right_crawler(Rolling::Reverse, MoterSpeed::High);
    robo.eye_toggle();
    let effects = robo.step(Event::Closed);
    assert_eq!(
        effects,
        vec![
            line(25, Level::Low),
            line(24, Level::Low),
            duty(Channel::Pwm0, 0),
            line(26, Level::Low),
            duty(Channel::Pwm1, 0),
            line(17, Level::Low),
            line(27, Level::Low),
        ]
    );
    assert_shut_down(&robo);
}

#[test]
fn nothing_is_processed_before_the_driver_is_enabled() {
    let mut robo = Robo::new(all_low());
    let moved = robo.step(Event::Received(Action::MoveLeftCrawler(
        Rolling::Normal,
        MoterSpeed::High,
    )));
    assert!(moved.is_empty());
    assert!(robo.step(Event::Received(Action::Stop)).is_empty());
    assert!(robo.step(Event::Closed).is_empty());
    assert_eq!(robo.lifecycle(), Lifecycle::Uninitialized);
    assert_eq!(robo.moter_left().speed(), MoterSpeed::Stop);
}

#[test]
fn nothing_is_processed_after_stop() {
    let mut robo = woken();
    robo.step(Event::Received(Action::Stop));
    let moved = robo.step(Event::Received(Action::MoveRightCrawler(
        Rolling::Normal,
        MoterSpeed::High,
    )));
    assert!(moved.is_empty());
    assert!(robo.step(Event::Received(Action::ToggleEye)).is_empty());
    assert!(robo.step(Event::Received(Action::Stop)).is_empty());
    assert!(robo.step(Event::Closed).is_empty());
    assert_shut_down(&robo);
}

#[test]
fn a_run_without_actions_enables_and_shuts_down() {
    let mut robo = Robo::new(all_low());
    let effects = robo.wakeup(&Vec::new());
    assert_eq!(
        effects,
        vec![
            line(25, Level::High),
            line(25, Level::Low),
            line(17, Level::Low),
            line(27, Level::Low),
        ]
    );
    assert_shut_down(&robo);
}

#[test]
fn a_run_on_a_chassis_that_was_shut_down_does_nothing() {
    let mut robo = woken();
    robo.stop();
    let actions = vec![Action::MoveLeftCrawler(Rolling::Normal, MoterSpeed::High), Action::Stop];
    assert!(robo.wakeup(&actions).is_empty());
    assert_shut_down(&robo);
}

#[test]
fn a_run_answers_actions_in_the_order_received() {
    let actions = vec![
        Action::MoveRightCrawler(Rolling::Normal, MoterSpeed::Slow),
        Action::NoOp,
        Action::ToggleEye,
        Action::MoveLeftCrawler(Rolling::Reverse, MoterSpeed::Middle),
        Action::MoveRightCrawler(Rolling::Reverse, MoterSpeed::Slow),
        Action::MoveLeftCrawler(Rolling::Reverse, MoterSpeed::Stop),
    ];
    let mut stepped = Robo::new(all_low());
    let mut expected = stepped.ready();
    for action in &actions {
        let answer = stepped.dispatch(*action);
        expected.extend(answer);
    }
    expected.extend(stepped.stop());

    let mut run = Robo::new(all_low());
    let effects = run.wakeup(&actions);
    assert_eq!(effects, expected);
    assert_eq!(
        &effects[..8],
        &[
            line(25, Level::High),
            line(13, Level::High),
            duty(Channel::Pwm1, 30),
            line(17, Level::High),
            line(27, Level::High),
            line(23, Level::High),
            duty(Channel::Pwm0, 50),
            line(13, Level::Low),
        ]
    );
    assert_shut_down(&run);
}

#[test]
fn a_run_split_in_two_gives_the_same_writes() {
    let first = vec![
        Action::MoveLeftCrawler(Rolling::Normal, MoterSpeed::High),
        Action::ToggleEye,
    ];
    let rest = vec![
        Action::MoveLeftCrawler(Rolling::Reverse, MoterSpeed::High),
        Action::MoveRightCrawler(Rolling::Normal, MoterSpeed::Middle),
    ];
    let mut whole = woken();
    let mut at_once = Vec::new();
    for action in first.iter().chain(rest.iter()) {
        at_once.extend(whole.step(Event::Received(*action)));
    }
    let mut parts = woken();
    let mut in_two = Vec::new();
    for action in &first {
        in_two.extend(parts.step(Event::Received(*action)));
    }
    for action in &rest {
        in_two.extend(parts.step(Event::Received(*action)));
    }
    assert_eq!(at_once, in_two);
    assert_eq!(at_once.len(), 8);
}

#[test]
fn no_run_raises_both_lines_of_a_motor() {
    let rollings = [Rolling::Normal, Rolling::Reverse];
    let speeds = [MoterSpeed::Stop, MoterSpeed::Slow, MoterSpeed::Middle, MoterSpeed::High];
    let mut actions = Vec::new();
    for n in 0..96usize {
        let rolling = rollings[(n / 2) % 2];
        let speed = speeds[(n * 5 + n / 7) % 4];
        actions.push(match n % 4 {
            0 => Action::MoveLeftCrawler(rolling, speed),
            1 => Action::MoveRightCrawler(rolling, speed),
            2 => Action::ToggleEye,
            _ => Action::NoOp,
        });
    }
    let mut robo = Robo::new(all_low());
    let mut lines = [Level::Low; 28];
    for effect in robo.wakeup(&actions) {
        if let Effect::SetLevel { gpio, level } = effect {
            lines[usize::from(gpio)] = level;
        }
        assert!(!(lines[23] == Level::High && lines[24] == Level::High));
        assert!(!(lines[26] == Level::High && lines[13] == Level::High));
    }
    for gpio in [23usize, 24, 26, 13, 25, 17, 27] {
        assert_eq!(lines[gpio], Level::Low);
    }
    assert_shut_down(&robo);
}

#[test]
fn the_writes_leave_the_lines_as_the_chassis_mirrors_them() {
    let mut robo = Robo::new(Levels { ai1: Level::High, left_eye: Level::High, ..all_low() });
    let mut lines = [Level::Low; 28];
    lines[23] = Level::High;
    lines[17] = Level::High;
    let mut duties = [0u8; 2];
    let mut effects = robo.ready();
    effects.extend(robo.move_left_crawler(Rolling::Normal, MoterSpeed::Slow));
    effects.extend(robo.move_right_crawler(Rolling::Reverse, MoterSpeed::High));
    effects.extend(robo.eye_toggle());
    for effect in effects {
        match effect {
            Effect::SetLevel { gpio, level } => lines[usize::from(gpio)] = level,
            Effect::SetDuty { channel: Channel::Pwm0, percent } => duties[0] = percent,
            Effect::SetDuty { channel: Channel::Pwm1, percent } => duties[1] = percent,
        }
    }
    assert_eq!(lines[23], robo.moter_left().in_1().level());
    assert_eq!(lines[24], robo.moter_left().in_2().level());
    assert_eq!(lines[26], robo.moter_right().in_1().level());
    assert_eq!(lines[13], robo.moter_right().in_2().level());
    assert_eq!(lines[25], robo.stby().level());
    assert_eq!(lines[17], robo.left_eye().level());
    assert_eq!(lines[27], robo.right_eye().level());
    assert_eq!(duties[0], robo.moter_left().speed().duty_cycle_percent());
    assert_eq!(duties[1], robo.moter_right().speed().duty_cycle_percent());
    assert_eq!((duties[0], duties[1]), (30, 70));
}
