use snake::term::{key_press, pressed_between, Event, Key};
use snake::ui::{button, text};
use snake::vector::Vector;

#[test]
fn key_press_finds_exact_key() {
    let events = vec![Event::Key(Key::Char('a')), Event::MousePress(1, 1), Event::Key(Key::Up)];
    assert!(key_press(&events, &Key::Up));
    assert!(!key_press(&events, &Key::Down));
    assert!(key_press(&events, &Key::Char('a')));
    assert!(!key_press(&events, &Key::Ctrl('a')));
    assert!(!key_press(&vec![], &Key::Up));
}

#[test]
fn pressed_between_is_inclusive() {
    let start = Vector::new(8, 8);
    let end = Vector::new(12, 8);
    assert!(pressed_between(&vec![Event::MousePress(8, 8)], start, end));
    assert!(pressed_between(&vec![Event::MousePress(12, 8)], start, end));
    assert!(!pressed_between(&vec![Event::MousePress(7, 8)], start, end));
    assert!(!pressed_between(&vec![Event::MousePress(10, 9)], start, end));
    assert!(!pressed_between(&vec![Event::Key(Key::Up)], start, end));
}

#[test]
fn pressed_between_looks_at_every_press() {
    let events = vec![Event::MousePress(0, 0), Event::MousePress(10, 8)];
    assert!(pressed_between(&events, Vector::new(8, 8), Vector::new(12, 8)));
}

#[test]
fn text_centers_label() {
    let r = text(Vector::new(10, 10), "ABC".to_string());
    assert_eq!(r, vec![(Vector::new(9, 10), "ABC".to_string())]);
}

#[test]
fn text_even_and_empty_labels() {
    assert_eq!(text(Vector::new(10, 2), "ABCD".to_string()), vec![(Vector::new(8, 2), "ABCD".to_string())]);
    assert_eq!(text(Vector::new(10, 2), String::new()), vec![(Vector::new(10, 2), String::new())]);
}

#[test]
fn button_hit_test_is_one_row() {
    let label = "Again".to_string();
    let at = Vector::new(10, 8);
    let (draws, clicked) = button(at, label.clone(), &vec![Event::MousePress(10, 8)]);
    assert_eq!(draws, vec![(Vector::new(8, 8), label.clone())]);
    assert!(clicked);
    let (_, clicked) = button(at, label.clone(), &vec![Event::MousePress(10, 9)]);
    assert!(!clicked);
    let (_, clicked) = button(at, label.clone(), &vec![Event::MousePress(13, 8)]);
    assert!(!clicked);
    let (draws, clicked) = button(at, label.clone(), &vec![Event::MousePress(8, 8), Event::MousePress(12, 8)]);
    assert!(clicked);
    assert_eq!(draws.len(), 1);
}
