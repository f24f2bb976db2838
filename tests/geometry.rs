use snake::utils::{char_len, random_between};
use snake::vector::Vector;

#[test]
fn vector_new_and_setters() {
    let v = Vector::new(3, -4);
    assert_eq!(v, Vector { x: 3, y: -4 });
    assert_eq!(v.set_x(7), Vector::new(7, -4));
    assert_eq!(v.set_y(9), Vector::new(3, 9));
}

#[test]
fn vector_arithmetic() {
    let a = Vector::new(5, -3);
    let b = Vector::new(2, 4);
    assert_eq!(a + b, Vector::new(7, 1));
    assert_eq!(a - b, Vector::new(3, -7));
    assert_eq!(a * b, Vector::new(10, -12));
    assert_eq!(a / b, Vector::new(2, 0));
}

#[test]
fn vector_division_truncates_toward_zero() {
    assert_eq!(Vector::new(-7, 7) / Vector::new(2, -2), Vector::new(-3, -3));
    assert_eq!(Vector::new(-7, -7) / Vector::new(-2, 3), Vector::new(3, -2));
    assert_eq!(Vector::new(i32::MIN, 5) / Vector::new(i32::MIN, i32::MIN), Vector::new(1, 0));
    assert_eq!(Vector::new(i32::MAX, 80) / Vector::new(-1, 2), Vector::new(-i32::MAX, 40));
}

#[test]
fn vector_from_pairs() {
    assert_eq!(Vector::from((4i32, -2i32)), Vector::new(4, -2));
    assert_eq!(Vector::from((80u16, 24u16)), Vector::new(80, 24));
    assert_eq!(Vector::from((65535u16, 0u16)), Vector::new(65535, 0));
}

#[test]
fn char_len_counts_characters() {
    assert_eq!(char_len(&String::new()), 0);
    assert_eq!(char_len(&"ABC".to_string()), 3);
    assert_eq!(char_len(&"h\u{e9}llo".to_string()), 5);
}

#[test]
fn random_between_stays_in_range() {
    let mut seen_above_low = false;
    for _ in 0..500 {
        let r = random_between(3, 9);
        assert!(3 <= r && r < 9);
        if r > 3 {
            seen_above_low = true;
        }
    }
    assert!(seen_above_low);
    assert_eq!(random_between(-4, -3), -4);
}
