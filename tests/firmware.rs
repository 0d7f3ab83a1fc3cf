use infinite_keyboard::blink::{PinLevel, Tick};
use infinite_keyboard::firmware::Firmware;

#[test]
fn firmware_starts_running() {
    let f = Firmware::new(PinLevel::Low);
    assert!(!f.is_halted());
    assert_eq!(f.level(), PinLevel::Low);
}

#[test]
fn running_firmware_ticks_like_blinker() {
    let mut f = Firmware::new(PinLevel::Low);
    assert_eq!(
        f.step(),
        Some(Tick { level: PinLevel::High, log_count: Some(0), delay_ms: 500 })
    );
    assert_eq!(
        f.step(),
        Some(Tick { level: PinLevel::Low, log_count: None, delay_ms: 500 })
    );
    assert_eq!(f.level(), PinLevel::Low);
}

#[test]
fn halt_keeps_pin_level() {
    let mut f = Firmware::new(PinLevel::Low);
    f.step();
    f.halt();
    assert!(f.is_halted());
    assert_eq!(f, Firmware::Halted(PinLevel::High));
    assert_eq!(f.level(), PinLevel::High);
}

#[test]
fn halted_firmware_never_ticks_again() {
    let mut f = Firmware::new(PinLevel::High);
    for _ in 0..9 {
        f.step();
    }
    f.halt();
    for _ in 0..25 {
        assert_eq!(f.step(), None);
        assert!(f.is_halted());
        assert_eq!(f.level(), PinLevel::Low);
    }
}

#[test]
fn halting_twice_changes_nothing() {
    let mut f = Firmware::new(PinLevel::Low);
    f.halt();
    f.halt();
    assert_eq!(f, Firmware::Halted(PinLevel::Low));
    assert_eq!(f.step(), None);
}
