//! Cursor movement driven by the left and right buttons.
use vstd::prelude::*;

verus! {

/// Direction in which a button press moves the page cursor.
#[derive(Clone, Copy, Debug, PartialEq, Eq, Structural)]
pub enum MoveDirection {
    Left,
    Right,
}

/// Cursor position after one move: left stops at zero, right steps up.
pub open spec fn moved(cursor: int, direction: MoveDirection) -> int {
    match direction {
        MoveDirection::Left => if cursor > 0 { cursor - 1 } else { 0 },
        MoveDirection::Right => cursor + 1,
    }
}

/// Cursor position after the moves `moves`, in order.
pub open spec fn moved_all(cursor: int, moves: Seq<MoveDirection>) -> int
    decreases moves.len(),
{
    if moves.len() == 0 { cursor } else { moved(moved_all(cursor, moves.drop_last()), moves.last()) }
}

/// Moves the cursor one position.
pub fn move_cursor(cursor: usize, direction: MoveDirection) -> (r: usize)
    requires
        cursor < usize::MAX,
    ensures
        r == moved(cursor as int, direction),
{
    match direction {
        MoveDirection::Left => cursor.saturating_sub(1),
        MoveDirection::Right => cursor + 1,
    }
}

/// Applies the queued moves to the cursor, unless a widget holds the focus,
/// in which case the cursor stays where it is.
pub fn apply_moves(cursor: usize, widget_active: bool, moves: &Vec<MoveDirection>) -> (r: usize)
    requires
        cursor + moves@.len() < usize::MAX,
    ensures
        widget_active ==> r == cursor,
        !widget_active ==> r == moved_all(cursor as int, moves@),
{
    if widget_active {
        return cursor;
    }
    let mut c: usize = cursor;
    let mut i: usize = 0;
    while i < moves.len()
        invariant
            i <= moves@.len(),
            cursor + moves@.len() < usize::MAX,
            c as int == moved_all(cursor as int, moves@.take(i as int)),
            c <= cursor + i,
        decreases moves@.len() - i,
    {
        assert(moves@.take(i + 1).drop_last() =~= moves@.take(i as int));
        c = move_cursor(c, moves[i]);
        i = i + 1;
    }
    assert(moves@.take(i as int) =~= moves@);
    c
}

} // verus!
