use camrobot::{Channel, Effect, Error, Level, Moter, MoterSpeed, Rolling};

fn left() -> Moter {
    Moter::new(23, 24, Channel::Pwm0, Level::Low, Level::Low).unwrap()
}

fn duty_writes(effects: &[Effect]) -> usize {
    effects.iter().filter(|e| matches!(e, Effect::SetDuty { .. })).count()
}

#[test]
fn a_new_motor_is_at_rest_on_its_lines() {
    let m = Moter::new(26, 13, Channel::Pwm1, Level::High, Level::Low).unwrap();
    assert_eq!(m.in_1().gpio(), 26);
    assert_eq!(m.in_1().level(), Level::High);
    assert_eq!(m.in_2().gpio(), 13);
    assert_eq!(m.in_2().level(), Level::Low);
    assert_eq!(m.channel(), Channel::Pwm1);
    assert_eq!(m.speed(), MoterSpeed::Stop);
}

#[test]
fn one_line_cannot_be_both_direction_lines() {
    let made = Moter::new(23, 23, Channel::Pwm0, Level::Low, Level::Low);
    assert!(matches!(made, Err(Error::PinUsed(23))));
}

#[test]
fn speeds_map_to_fixed_duty_cycles() {
    assert_eq!(MoterSpeed::Stop.duty_cycle_percent(), 0);
    assert_eq!(MoterSpeed::Slow.duty_cycle_percent(), 30);
    assert_eq!(MoterSpeed::Middle.duty_cycle_percent(), 50);
    assert_eq!(MoterSpeed::High.duty_cycle_percent(), 70);
}

#[test]
fn duty_cycles_as_fractions_of_a_period() {
    let fraction = |s: MoterSpeed| f64::from(s.duty_cycle_percent()) / 100.0;
    assert_eq!(fraction(MoterSpeed::Stop), 0.0);
    assert_eq!(fraction(MoterSpeed::Slow), 0.3);
    assert_eq!(fraction(MoterSpeed::Middle), 0.5);
    assert_eq!(fraction(MoterSpeed::High), 0.7);
}

#[test]
fn speeds_are_ordered_slowest_first() {
    assert!(MoterSpeed::Stop < MoterSpeed::Slow);
    assert!(MoterSpeed::Slow < MoterSpeed::Middle);
    assert!(MoterSpeed::Middle < MoterSpeed::High);
}

#[test]
fn normal_turns_clockwise() {
    let mut m = left();
    let effects = m.apply(Rolling::Normal, MoterSpeed::Middle);
    assert_eq!(
        effects,
        vec![
            Effect::SetLevel { gpio: 24, level: Level::High },
            Effect::SetDuty { channel: Channel::Pwm0, percent: 50 },
        ]
    );
    assert_eq!(m.in_1().level(), Level::Low);
    assert_eq!(m.in_2().level(), Level::High);
    assert_eq!(m.speed(), MoterSpeed::Middle);
}

#[test]
fn reverse_turns_counter_clockwise() {
    let mut m = left();
    let effects = m.apply(Rolling::Reverse, MoterSpeed::High);
    assert_eq!(
        effects,
        vec![
            Effect::SetLevel { gpio: 23, level: Level::High },
            Effect::SetDuty { channel: Channel::Pwm0, percent: 70 },
        ]
    );
    assert_eq!(m.in_1().level(), Level::High);
    assert_eq!(m.in_2().level(), Level::Low);
    assert_eq!(m.speed(), MoterSpeed::High);
}

#[test]
fn a_change_of_direction_lowers_before_it_raises() {
    let mut m = left();
    m.apply(Rolling::Normal, MoterSpeed::Slow);
    let to_reverse = m.apply(Rolling::Reverse, MoterSpeed::Slow);
    assert_eq!(
        to_reverse,
        vec![
            Effect::SetLevel { gpio: 24, level: Level::Low },
            Effect::SetLevel { gpio: 23, level: Level::High },
        ]
    );
    let to_normal = m.apply(Rolling::Normal, MoterSpeed::Slow);
    assert_eq!(
        to_normal,
        vec![
            Effect::SetLevel { gpio: 23, level: Level::Low },
            Effect::SetLevel { gpio: 24, level: Level::High },
        ]
    );
}

#[test]
fn the_same_request_twice_writes_the_duty_cycle_once() {
    let mut m = left();
    let first = m.apply(Rolling::Normal, MoterSpeed::Middle);
    let second = m.apply(Rolling::Normal, MoterSpeed::Middle);
    assert_eq!(duty_writes(&first), 1);
    assert_eq!(duty_writes(&second), 0);
    assert!(second.is_empty());
}

#[test]
fn the_same_speed_in_the_other_direction_writes_no_duty_cycle() {
    let mut m = left();
    m.apply(Rolling::Normal, MoterSpeed::High);
    let second = m.apply(Rolling::Reverse, MoterSpeed::High);
    assert_eq!(duty_writes(&second), 0);
    assert_eq!(second.len(), 2);
}

#[test]
fn a_request_for_the_speed_held_writes_no_duty_cycle() {
    let mut m = left();
    let effects = m.apply(Rolling::Normal, MoterSpeed::Stop);
    assert_eq!(effects, vec![Effect::SetLevel { gpio: 24, level: Level::High }]);
    assert_eq!(m.speed(), MoterSpeed::Stop);
}

#[test]
fn stop_lowers_both_lines_and_the_duty_cycle() {
    let mut m = left();
    m.apply(Rolling::Reverse, MoterSpeed::High);
    let effects = m.stop();
    assert_eq!(
        effects,
        vec![
            Effect::SetLevel { gpio: 23, level: Level::Low },
            Effect::SetDuty { channel: Channel::Pwm0, percent: 0 },
        ]
    );
    assert_eq!(m.in_1().level(), Level::Low);
    assert_eq!(m.in_2().level(), Level::Low);
    assert_eq!(m.speed(), MoterSpeed::Stop);
    assert!(m.stop().is_empty());
}

#[test]
fn a_motor_found_with_both_lines_high_is_repaired() {
    let mut m = Moter::new(23, 24, Channel::Pwm0, Level::High, Level::High).unwrap();
    let effects = m.apply(Rolling::Reverse, MoterSpeed::Slow);
    assert_eq!(
        effects,
        vec![
            Effect::SetLevel { gpio: 24, level: Level::Low },
            Effect::SetDuty { channel: Channel::Pwm0, percent: 30 },
        ]
    );
    assert_eq!(m.in_1().level(), Level::High);
    assert_eq!(m.in_2().level(), Level::Low);
}

#[test]
fn no_sequence_of_requests_raises_both_lines() {
    let rollings = [Rolling::Normal, Rolling::Reverse];
    let speeds = [MoterSpeed::Stop, MoterSpeed::Slow, MoterSpeed::Middle, MoterSpeed::High];
    let mut m = left();
    let (mut in_1, mut in_2) = (Level::Low, Level::Low);
    for step in 0..64usize {
        let rolling = rollings[(step / 3) % 2];
        let speed = speeds[(step * 7 + step / 5) % 4];
        for effect in m.apply(rolling, speed) {
            if let Effect::SetLevel { gpio, level } = effect {
                if gpio == 23 {
                    in_1 = level;
                } else {
                    assert_eq!(gpio, 24);
                    in_2 = level;
                }
            }
            assert!(!(in_1 == Level::High && in_2 == Level::High));
        }
        assert_eq!(m.in_1().level(), in_1);
        assert_eq!(m.in_2().level(), in_2);
    }
}
