use camrobot::{Effect, Level, OutPin};

#[test]
fn change_high_twice_writes_once() {
    let mut pin = OutPin::new(25, Level::Low);
    let first = pin.change_high();
    let second = pin.change_high();
    assert_eq!(first, Some(Effect::SetLevel { gpio: 25, level: Level::High }));
    assert_eq!(second, None);
    assert_eq!(pin.level(), Level::High);
}

#[test]
fn change_low_twice_writes_once() {
    let mut pin = OutPin::new(17, Level::High);
    assert_eq!(pin.change_low(), Some(Effect::SetLevel { gpio: 17, level: Level::Low }));
    assert_eq!(pin.change_low(), None);
    assert_eq!(pin.level(), Level::Low);
}

#[test]
fn change_to_the_level_held_writes_nothing() {
    let mut high = OutPin::new(4, Level::High);
    assert_eq!(high.change_high(), None);
    assert!(high.is_set_high());
    let mut low = OutPin::new(4, Level::Low);
    assert_eq!(low.change_low(), None);
    assert!(low.is_set_low());
}

#[test]
fn forced_writes_are_always_issued() {
    let mut pin = OutPin::new(27, Level::Low);
    assert_eq!(pin.set_low(), Effect::SetLevel { gpio: 27, level: Level::Low });
    assert_eq!(pin.set_low(), Effect::SetLevel { gpio: 27, level: Level::Low });
    assert_eq!(pin.set_high(), Effect::SetLevel { gpio: 27, level: Level::High });
    assert_eq!(pin.set_high(), Effect::SetLevel { gpio: 27, level: Level::High });
    assert_eq!(pin.level(), Level::High);
}

#[test]
fn toggle_goes_to_the_other_level() {
    let mut pin = OutPin::new(17, Level::Low);
    assert_eq!(pin.toggle(), Effect::SetLevel { gpio: 17, level: Level::High });
    assert_eq!(pin.level(), Level::High);
    assert_eq!(pin.toggle(), Effect::SetLevel { gpio: 17, level: Level::Low });
    assert_eq!(pin.level(), Level::Low);
}

#[test]
fn a_pin_reports_its_line_and_level() {
    let pin = OutPin::new(13, Level::High);
    assert_eq!(pin.gpio(), 13);
    assert_eq!(pin.level(), Level::High);
    assert!(pin.is_set_high());
    assert!(!pin.is_set_low());
}

#[test]
fn level_toggled_is_the_other_level() {
    assert_eq!(Level::Low.toggled(), Level::High);
    assert_eq!(Level::High.toggled(), Level::Low);
}
