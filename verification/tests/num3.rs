use lminc::num3::{ThreeDigitNumber, TryFromError};

fn num(value: u16) -> ThreeDigitNumber {
    ThreeDigitNumber::try_from(value).expect("value is below 1000")
}

#[test]
fn add_wraps_around() {
    assert_eq!(u16::from(num(999) + num(1)), 0);
    assert_eq!(u16::from(num(999) + num(999)), 998);
    assert_eq!(u16::from(num(1) + num(2)), 3);
}

#[test]
fn sub_sets_negative_flag() {
    let (difference, negative) = num(5) - num(10);
    assert_eq!(u16::from(difference), 995);
    assert!(negative);

    let (difference, negative) = num(10) - num(5);
    assert_eq!(u16::from(difference), 5);
    assert!(!negative);

    let (difference, negative) = num(7) - num(7);
    assert_eq!(u16::from(difference), 0);
    assert!(!negative);
}

#[test]
fn try_from_round_trips() {
    for value in 0..1000u16 {
        let number = ThreeDigitNumber::try_from(value).expect("value is below 1000");
        assert_eq!(u16::from(number), value);
    }
}

#[test]
fn try_from_refuses_large_values() {
    assert_eq!(ThreeDigitNumber::try_from(1000u16), Err(TryFromError::TooLarge));
    assert_eq!(ThreeDigitNumber::try_from(u16::MAX), Err(TryFromError::TooLarge));
}

#[test]
fn from_u8_keeps_value() {
    assert_eq!(u16::from(ThreeDigitNumber::from(255u8)), 255);
    assert_eq!(u16::from(ThreeDigitNumber::from(0u8)), 0);
}

#[test]
fn two_digit_check() {
    assert!(num(99).is_2_digit());
    assert!(!num(100).is_2_digit());
}

#[test]
fn zero_and_default() {
    assert_eq!(ThreeDigitNumber::zero(), ThreeDigitNumber::default());
    assert_eq!(u16::from(ThreeDigitNumber::zero()), 0);
    assert_eq!(ThreeDigitNumber::from_unchecked(42), num(42));
}
