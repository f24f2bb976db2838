use crate::term::{pressed_between, pressed_in, Event};
use crate::utils::char_len;
use crate::vector::{fits_i32, Vector};
use vstd::prelude::*;

verus! {

/// Text to write with its first character at a cell.
pub type DrawCommand = (Vector, String);

/// A draw command as a position and the characters written there.
pub open spec fn command_view(d: DrawCommand) -> (Vector, Seq<char>) {
    (d.0, d.1@)
}

/// The draw commands of a frame, in order.
pub open spec fn commands_view(ds: Seq<DrawCommand>) -> Seq<(Vector, Seq<char>)> {
    ds.map_values(|d: DrawCommand| command_view(d))
}

/// Appends the commands of `more` to `comps`.
pub fn extend_commands(comps: &mut Vec<DrawCommand>, more: Vec<DrawCommand>)
    ensures
        commands_view(final(comps)@) == commands_view(old(comps)@) + commands_view(more@),
{
    let ghost added = more@;
    let mut more = more;
    comps.append(&mut more);
    assert(commands_view(comps@) =~= commands_view(old(comps)@) + commands_view(added));
}

/// Half the label's length in characters, rounded down.
pub open spec fn half_len(content: Seq<char>) -> int {
    content.len() as int / 2
}

/// Where a label centred on `position` starts.
pub open spec fn centered_start(position: Vector, content: Seq<char>) -> Vector {
    Vector { x: (position.x - half_len(content)) as i32, y: position.y }
}

/// Where a label centred on `position` ends, for hit tests.
pub open spec fn centered_end(position: Vector, content: Seq<char>) -> Vector {
    Vector { x: (position.x + half_len(content)) as i32, y: position.y }
}

/// A label of `content` can be centred on `position` without leaving `i32`.
pub open spec fn can_center(position: Vector, content: Seq<char>) -> bool {
    &&& content.len() <= i32::MAX
    &&& fits_i32(position.x - half_len(content))
    &&& fits_i32(position.x + half_len(content))
}

/// The single draw command of a label centred on `position`.
pub open spec fn text_command(position: Vector, content: Seq<char>) -> (Vector, Seq<char>) {
    (centered_start(position, content), content)
}

/// A label centred horizontally on `position`.
pub fn text(position: Vector, content: String) -> (r: Vec<DrawCommand>)
    requires
        can_center(position, content@),
    ensures
        commands_view(r@) == seq![text_command(position, content@)],
{
    let text_len = char_len(&content);
    let pos_start = position - Vector::new(text_len / 2, 0);
    let r = vec![(pos_start, content)];
    assert(commands_view(r@) =~= seq![text_command(position, content@)]);
    r
}

/// A label centred on `position` that can be clicked. Besides the label's
/// draw command, says whether a mouse press of `events` fell on the row of
/// `position` between the label's start and the same distance right of
/// `position`.
pub fn button(position: Vector, content: String, events: &Vec<Event>) -> (r: (
    Vec<DrawCommand>,
    bool,
))
    requires
        can_center(position, content@),
    ensures
        commands_view(r.0@) == seq![text_command(position, content@)],
        r.1 == pressed_in(
            events@,
            centered_start(position, content@),
            centered_end(position, content@),
        ),
{
    let text_len = char_len(&content);
    let pos_offset = Vector::new(text_len / 2, 0);
    let pos_start = position - pos_offset;
    let pos_end = position + pos_offset;
    let clicked = pressed_between(events, pos_start, pos_end);
    let r = vec![(pos_start, content)];
    assert(commands_view(r@) =~= seq![text_command(position, content@)]);
    (r, clicked)
}

} // verus!
