use nucleo_blink::blink::{BlinkSchedule, HIGH_PASSES, LOW_PASSES};
use nucleo_blink::board::{AcquireError, Device, PinMode, LED_NUMBER, LED_PORT};

#[test]
fn peripherals_are_taken_once() {
    let mut d = Device::new();
    assert!(!d.taken());
    let first = d.take();
    assert!(first.is_ok());
    assert!(d.taken());
    let second = d.take();
    assert_eq!(second.err(), Some(AcquireError::AlreadyTaken));
    assert_eq!(d.take().err(), Some(AcquireError::AlreadyTaken));
}

#[test]
fn led_pin_is_pa5_push_pull() {
    let mut d = Device::new();
    let p = d.take().expect("first take");
    let pin = p.into_led();
    assert_eq!(pin.port, LED_PORT);
    assert_eq!(pin.number, LED_NUMBER);
    assert_eq!((pin.port, pin.number), ('A', 5));
    assert_eq!(pin.mode(), PinMode::Analog);
    let out = pin.into_push_pull_output();
    assert_eq!(out.mode(), PinMode::PushPullOutput);
    assert!(!out.is_set_high());
}

#[test]
fn set_low_and_set_high_always_succeed() {
    let mut out = Device::new().take().expect("first take").into_led().into_push_pull_output();
    for _ in 0..1000 {
        assert_eq!(out.set_low(), Ok(()));
        assert!(!out.is_set_high());
        assert_eq!(out.set_high(), Ok(()));
        assert!(out.is_set_high());
    }
}

#[test]
fn alternate_ends_on_last_level() {
    let mut out = Device::new().take().expect("first take").into_led().into_push_pull_output();
    assert_eq!(out.alternate(0), Ok(()));
    assert!(!out.is_set_high());
    assert_eq!(out.alternate(7), Ok(()));
    assert!(!out.is_set_high());
    assert_eq!(out.alternate(10), Ok(()));
    assert!(out.is_set_high());
    assert_eq!(out.alternate(0), Ok(()));
    assert!(out.is_set_high());
    assert_eq!((out.port, out.number), ('A', 5));
}

#[test]
fn blink_schedule_runs_low_then_high() {
    let mut s = BlinkSchedule::new();
    let mut low = 0u32;
    while !s.high {
        assert!(!s.next_level());
        low += 1;
    }
    assert_eq!(low, LOW_PASSES);
    assert_eq!(s.remaining, HIGH_PASSES);
    assert!(s.next_level());
    assert_eq!(s.remaining, HIGH_PASSES - 1);
}

#[test]
fn blink_schedule_wraps_after_high_phase() {
    let mut s = BlinkSchedule { high: true, remaining: 2 };
    assert!(s.next_level());
    assert_eq!(s, BlinkSchedule { high: true, remaining: 1 });
    assert!(s.next_level());
    assert_eq!(s, BlinkSchedule { high: false, remaining: LOW_PASSES });
    assert!(!s.next_level());
    assert_eq!(s.remaining, LOW_PASSES - 1);
}
