use securedraw::counter::Counter;
use securedraw::errors::DrawError;

#[test]
fn counter_starts_at_zero_and_steps() {
    let mut c = Counter::new();
    assert_eq!(c.count, 0);
    assert_eq!(c.increment(), Ok(()));
    assert_eq!(c.increment(), Ok(()));
    assert_eq!(c.count, 2);
    assert_eq!(c.decrement(), Ok(()));
    assert_eq!(c.count, 1);
}

#[test]
fn increment_at_the_maximum_fails_and_keeps_the_value() {
    let mut c = Counter::new();
    c.set(255);
    assert_eq!(c.increment(), Err(DrawError::ArithmeticOverflow));
    assert_eq!(c.count, 255);
}

#[test]
fn decrement_at_zero_fails_and_keeps_the_value() {
    let mut c = Counter::new();
    assert_eq!(c.decrement(), Err(DrawError::ArithmeticOverflow));
    assert_eq!(c.count, 0);
}

#[test]
fn set_overwrites_the_count() {
    let mut c = Counter::new();
    c.set(7);
    assert_eq!(c.count, 7);
    c.set(0);
    assert_eq!(c.count, 0);
}
