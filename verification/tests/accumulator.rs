use rust_calc::accumulator::CalcComponent;

#[test]
fn set_then_add() {
    let mut c = CalcComponent::new(0);
    c.set_display(4);
    assert_eq!(c.add(5), 9);
    assert_eq!(c.get_health(), 9);
}

#[test]
fn set_then_add_zero() {
    let mut c = CalcComponent::new(0);
    c.set_display(0);
    assert_eq!(c.add(0), 0);
}

#[test]
fn set_then_subtract_signed() {
    let mut c = CalcComponent::new(0);
    c.set_display(3);
    assert_eq!(c.subtract(10), -7);
    assert_eq!(c.get_health(), -7);
}

#[test]
fn set_then_subtract_signed_negative_operands() {
    let mut c = CalcComponent::new(0);
    c.set_display(-5);
    assert_eq!(c.subtract(-2), -3);
}

#[test]
fn set_then_subtract_clamped_underflow() {
    let mut c = CalcComponent::new(0);
    c.set_display(3);
    assert_eq!(c.subtract_clamped(10), 0);
    assert_eq!(c.get_health(), 0);
}

#[test]
fn set_then_subtract_clamped_no_underflow() {
    let mut c = CalcComponent::new(0);
    c.set_display(10);
    assert_eq!(c.subtract_clamped(3), 7);
}

#[test]
fn read_after_set() {
    let mut c = CalcComponent::new(0);
    c.set_display(42);
    assert_eq!(c.get_health(), 42);
    c.set_display(-1);
    assert_eq!(c.get_health(), -1);
}

#[test]
fn read_is_idempotent() {
    let mut c = CalcComponent::new(0);
    c.add(13);
    let first = c.get_health();
    let second = c.get_health();
    let third = c.get_health();
    assert_eq!(first, 13);
    assert_eq!(second, 13);
    assert_eq!(third, 13);
}

#[test]
fn new_holds_initial_value() {
    let c = CalcComponent::new(-17);
    assert_eq!(c.get_health(), -17);
}

#[test]
fn scenario_add_then_subtract_signed() {
    let mut c = CalcComponent::new(0);
    assert_eq!(c.add(7), 7);
    assert_eq!(c.subtract(10), -3);
}

#[test]
fn scenario_add_then_subtract_clamped() {
    let mut c = CalcComponent::new(0);
    assert_eq!(c.add(7), 7);
    assert_eq!(c.subtract_clamped(10), 0);
}

#[test]
fn set_returns_new_value() {
    let mut c = CalcComponent::new(3);
    assert_eq!(c.set_display(25), 25);
}
