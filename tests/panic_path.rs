use pinetime::panic::{panic_fmt, BlinkStep, PanicHandler, PinLevel, LED_PIN};

#[test]
fn panic_trigger_is_idempotent() {
    let mut h = PanicHandler::new();
    panic_fmt(&mut h);
    let once = h;
    panic_fmt(&mut h);
    assert_eq!(h, once);
    assert!(h.triggered);
    assert_eq!(h.led.pin, LED_PIN);
}

#[test]
fn nested_trigger_keeps_pattern_position() {
    let mut h = PanicHandler::new();
    panic_fmt(&mut h);
    h.next_step();
    let mid = h;
    panic_fmt(&mut h);
    assert_eq!(h, mid);
}

#[test]
fn blink_pattern_repeats() {
    let mut h = PanicHandler::new();
    panic_fmt(&mut h);
    let expect = [
        BlinkStep { pin: LED_PIN, level: PinLevel::Low, spins: 1_000_000 },
        BlinkStep { pin: LED_PIN, level: PinLevel::High, spins: 100_000 },
        BlinkStep { pin: LED_PIN, level: PinLevel::Low, spins: 100_000 },
        BlinkStep { pin: LED_PIN, level: PinLevel::High, spins: 500_000 },
    ];
    for round in 0..3 {
        for e in expect.iter() {
            assert_eq!(h.next_step(), *e, "round {}", round);
        }
    }
}

#[test]
fn blink_from_any_state_does_not_fault() {
    for step in [0u8, 3, 4, 200, 255] {
        let mut h = PanicHandler::new();
        h.step = step;
        h.triggered = step % 2 == 0;
        panic_fmt(&mut h);
        for _ in 0..10 {
            let s = h.next_step();
            assert!(h.step < 4);
            assert!(s.spins > 0);
        }
    }
}
