use hmi_core::arbiter::Arbiter;

const DISPLAY: usize = 0;
const CLOCK: usize = 1;
const PRESS_COUNTER: usize = 2;
const EVENT_SLOT: usize = 3;

fn background_arbiter() -> Arbiter {
    // Ceilings: the display and clock are touched only by the background
    // loop (priority 0); the press counter and event slot are shared with
    // the interrupt handlers (priority 1).
    Arbiter::new(vec![0, 0, 1, 1], 0)
}

#[test]
fn fresh_arbiter_holds_nothing_at_base_priority() {
    let a = background_arbiter();
    assert_eq!(a.current, 0);
    for r in 0..4 {
        assert!(!a.holds(r));
    }
}

#[test]
fn entering_raises_priority_to_the_ceiling() {
    let mut a = background_arbiter();
    a.enter(PRESS_COUNTER);
    assert!(a.holds(PRESS_COUNTER));
    assert_eq!(a.current, 1);
}

#[test]
fn leaving_restores_the_previous_priority() {
    let mut a = background_arbiter();
    a.enter(DISPLAY);
    assert_eq!(a.current, 0);
    a.enter(EVENT_SLOT);
    assert_eq!(a.current, 1);
    a.exit(EVENT_SLOT);
    assert_eq!(a.current, 0);
    assert!(a.holds(DISPLAY));
    assert!(!a.holds(EVENT_SLOT));
    a.exit(DISPLAY);
    assert_eq!(a.current, 0);
    assert!(!a.holds(DISPLAY));
}

#[test]
fn nested_sections_follow_the_fixed_order() {
    let mut a = background_arbiter();
    a.enter(DISPLAY);
    a.enter(CLOCK);
    a.enter(PRESS_COUNTER);
    assert_eq!(a.current, 1);
    a.exit(PRESS_COUNTER);
    a.exit(CLOCK);
    a.exit(DISPLAY);
    assert_eq!(a.current, 0);
}
