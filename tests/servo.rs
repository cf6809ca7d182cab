use reactive_firmware::action::Action;
use reactive_firmware::servo::ServoSweep;

#[test]
fn servo_forward_pass_reaches_top_duty() {
    let mut s = ServoSweep::new(40000);
    assert_eq!(s.min_duty(), 1000);
    assert_eq!(s.step(), 500);
    assert_eq!(s.duty(), 1000);
    for i in 0..8 {
        let r = s.advance();
        let r = r.as_slice();
        assert_eq!(r[0], Action::LedLow(i));
        assert_eq!(r[1], Action::DelayMs(500));
        assert_eq!(r[2], Action::SetDuty(1000 + 500 * (i as u16 + 1)));
    }
    assert_eq!(s.duty(), 5000);
}

#[test]
fn servo_reverse_pass_returns_to_min_duty() {
    let mut s = ServoSweep::new(1000);
    assert_eq!(s.min_duty(), 25);
    assert_eq!(s.step(), 12);
    for _ in 0..8 {
        s.advance();
    }
    assert_eq!(s.duty(), 25 + 8 * 12);
    for i in 0..8 {
        let r = s.advance();
        let r = r.as_slice();
        assert_eq!(r[0], Action::LedHigh(7 - i));
    }
    assert_eq!(s.duty(), 25);
    assert_eq!(s.stage(), 0);
}

#[test]
fn servo_largest_max_duty_does_not_overflow() {
    let mut s = ServoSweep::new(u16::MAX);
    for _ in 0..16 {
        s.advance();
    }
    assert_eq!(s.duty(), u16::MAX / 40);
}
