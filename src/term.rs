use crate::vector::Vector;
use vstd::prelude::*;

verus! {

/// A key as the game reads it.
#[derive(Debug, Clone, Copy, PartialEq, Eq, Structural)]
pub enum Key {
    Up,
    Down,
    Left,
    Right,
    Char(char),
    Ctrl(char),
    Other,
}

/// One decoded input event: a key press, or a mouse button press at a cell.
#[derive(Debug, Clone, Copy, PartialEq, Eq, Structural)]
pub enum Event {
    Key(Key),
    MousePress(i32, i32),
    Other,
}

/// Some event of `events` is a press of exactly `key`.
pub open spec fn key_pressed(events: Seq<Event>, key: Key) -> bool {
    exists|i: int| 0 <= i < events.len() && events[i] == Event::Key(key)
}

/// The cell `(x, y)` lies in the inclusive rectangle from `start` to `end`.
pub open spec fn within(x: i32, y: i32, start: Vector, end: Vector) -> bool {
    start.x <= x <= end.x && start.y <= y <= end.y
}

/// `e` is a mouse press inside the inclusive rectangle from `start` to `end`.
pub open spec fn press_within(e: Event, start: Vector, end: Vector) -> bool {
    match e {
        Event::MousePress(x, y) => within(x, y, start, end),
        _ => false,
    }
}

/// Some event of `events` is a mouse press inside the rectangle.
pub open spec fn pressed_in(events: Seq<Event>, start: Vector, end: Vector) -> bool {
    exists|i: int| 0 <= i < events.len() && press_within(#[trigger] events[i], start, end)
}

/// Whether the snapshot holds a press of `key`.
pub fn key_press(events: &Vec<Event>, key: &Key) -> (r: bool)
    ensures
        r == key_pressed(events@, *key),
{
    let mut i: usize = 0;
    while i < events.len()
        invariant
            0 <= i <= events@.len(),
            forall|j: int| 0 <= j < i ==> events@[j] != Event::Key(*key),
        decreases events@.len() - i,
    {
        if let Event::Key(found) = &events[i] {
            if *found == *key {
                return true;
            }
        }
        i += 1;
    }
    false
}

/// Whether the snapshot holds a mouse press inside the inclusive rectangle
/// from `start` to `end`.
pub fn pressed_between(events: &Vec<Event>, start: Vector, end: Vector) -> (r: bool)
    ensures
        r == pressed_in(events@, start, end),
{
    let mut i: usize = 0;
    while i < events.len()
        invariant
            0 <= i <= events@.len(),
            forall|j: int| 0 <= j < i ==> !press_within(#[trigger] events@[j], start, end),
        decreases events@.len() - i,
    {
        if let Event::MousePress(x, y) = &events[i] {
            if start.x <= *x && *x <= end.x && start.y <= *y && *y <= end.y {
                return true;
            }
        }
        i += 1;
    }
    false
}

} // verus!
