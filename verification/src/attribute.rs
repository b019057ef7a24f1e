//! Moving and zooming a view box that is kept as the text of an attribute:
//! a list of numbers, of which the first four are `x`, `y`, width and height.

use vstd::prelude::*;
use crate::map::Wheel;
use crate::text::integers;
use crate::text::joined;
use crate::text::read_integers;
use crate::text::values_of;
use crate::text::vec_to_string;

verus! {

/// By how much one step of the wheel changes width and height.
pub const ATTRIBUTE_ZOOM_STEP: i32 = 30;

/// The smallest width and height that a step of the wheel leaves.
pub const ATTRIBUTE_ZOOM_MIN: i32 = 500;

/// The largest width and height that a step of the wheel leaves.
pub const ATTRIBUTE_ZOOM_MAX: i32 = 1500;

/// The larger of two integers.
pub open spec fn larger(a: int, b: int) -> int {
    if a >= b {
        a
    } else {
        b
    }
}

/// The smaller of two integers.
pub open spec fn smaller(a: int, b: int) -> int {
    if a <= b {
        a
    } else {
        b
    }
}

/// The numbers after a pointer movement: `x` and `y` move against it.
pub open spec fn dragged(values: Seq<int>, movement_x: int, movement_y: int) -> Seq<int> {
    values.update(0, values[0] - movement_x).update(1, values[1] - movement_y)
}

/// The numbers after a turn of the wheel: width and height one step down,
/// but not below the minimum, or one step up, but not above the maximum.
pub open spec fn scrolled(values: Seq<int>, wheel: Wheel) -> Seq<int> {
    match wheel {
        Wheel::Down => values.update(
            2,
            larger(ATTRIBUTE_ZOOM_MIN as int, values[2] - ATTRIBUTE_ZOOM_STEP),
        ).update(3, larger(ATTRIBUTE_ZOOM_MIN as int, values[3] - ATTRIBUTE_ZOOM_STEP)),
        Wheel::Up => values.update(
            2,
            smaller(ATTRIBUTE_ZOOM_MAX as int, values[2] + ATTRIBUTE_ZOOM_STEP),
        ).update(3, smaller(ATTRIBUTE_ZOOM_MAX as int, values[3] + ATTRIBUTE_ZOOM_STEP)),
        Wheel::Still => values,
    }
}

/// Whether every member of `values` can be held by an `i32`.
pub open spec fn all_fit(values: Seq<int>) -> bool {
    forall|i: int| 0 <= i < values.len() ==> i32::MIN <= #[trigger] values[i] <= i32::MAX
}

/// The attribute after a pointer movement, where it can be read, holds `x`
/// and `y`, and both stay within the range of `i32`.
pub open spec fn dragged_attribute(text: Seq<char>, movement_x: int, movement_y: int) -> Option<
    Seq<char>,
> {
    match integers(text) {
        Some(values) => if values.len() >= 2 && all_fit(dragged(values, movement_x, movement_y)) {
            Some(joined(dragged(values, movement_x, movement_y)))
        } else {
            None
        },
        None => None,
    }
}

/// The attribute after a turn of the wheel, where it can be read and, for a
/// turn that zooms, holds width and height.
pub open spec fn scrolled_attribute(text: Seq<char>, wheel: Wheel) -> Option<Seq<char>> {
    match integers(text) {
        Some(values) => if values.len() >= 4 || wheel == Wheel::Still {
            Some(joined(scrolled(values, wheel)))
        } else {
            None
        },
        None => None,
    }
}

fn step_down(extent: i32) -> (next: i32)
    ensures
        next == larger(ATTRIBUTE_ZOOM_MIN as int, extent - ATTRIBUTE_ZOOM_STEP),
{
    if extent as i64 - ATTRIBUTE_ZOOM_STEP as i64 >= ATTRIBUTE_ZOOM_MIN as i64 {
        extent - ATTRIBUTE_ZOOM_STEP
    } else {
        ATTRIBUTE_ZOOM_MIN
    }
}

fn step_up(extent: i32) -> (next: i32)
    ensures
        next == smaller(ATTRIBUTE_ZOOM_MAX as int, extent + ATTRIBUTE_ZOOM_STEP),
{
    if extent as i64 + ATTRIBUTE_ZOOM_STEP as i64 <= ATTRIBUTE_ZOOM_MAX as i64 {
        extent + ATTRIBUTE_ZOOM_STEP
    } else {
        ATTRIBUTE_ZOOM_MAX
    }
}

/// Moves the view box of an attribute against a pointer movement.
///
/// Gives `None` where the attribute is not a list of integers, holds fewer
/// than two, or where the moved origin leaves the range of `i32`.
pub fn drag(attribute: &str, movement_x: i32, movement_y: i32) -> (moved: Option<String>)
    ensures
        match moved {
            Some(text) => dragged_attribute(attribute@, movement_x as int, movement_y as int)
                == Some(text@),
            None => dragged_attribute(attribute@, movement_x as int, movement_y as int) is None,
        },
{
    let mut values = match read_integers(attribute) {
        Some(values) => values,
        None => {
            return None;
        },
    };
    if values.len() < 2 {
        return None;
    }
    let ghost before = values_of(values@);
    let x = match values[0].checked_sub(movement_x) {
        Some(x) => x,
        None => {
            assert(!all_fit(dragged(before, movement_x as int, movement_y as int))) by {
                assert(dragged(before, movement_x as int, movement_y as int)[0] == before[0]
                    - movement_x);
            }
            return None;
        },
    };
    let y = match values[1].checked_sub(movement_y) {
        Some(y) => y,
        None => {
            assert(!all_fit(dragged(before, movement_x as int, movement_y as int))) by {
                assert(dragged(before, movement_x as int, movement_y as int)[1] == before[1]
                    - movement_y);
            }
            return None;
        },
    };
    values.set(0, x);
    values.set(1, y);
    assert(values_of(values@) =~= dragged(before, movement_x as int, movement_y as int));
    Some(vec_to_string(values))
}

/// Zooms the view box of an attribute by one step of the wheel.
///
/// Gives `None` where the attribute is not a list of integers, or where the
/// wheel was turned and the list holds fewer than four.
pub fn scroll(attribute: &str, wheel: Wheel) -> (zoomed: Option<String>)
    ensures
        match zoomed {
            Some(text) => scrolled_attribute(attribute@, wheel) == Some(text@),
            None => scrolled_attribute(attribute@, wheel) is None,
        },
{
    let mut values = match read_integers(attribute) {
        Some(values) => values,
        None => {
            return None;
        },
    };
    let ghost before = values_of(values@);
    match wheel {
        Wheel::Down => {
            if values.len() < 4 {
                return None;
            }
            let w = step_down(values[2]);
            let h = step_down(values[3]);
            values.set(2, w);
            values.set(3, h);
        },
        Wheel::Up => {
            if values.len() < 4 {
                return None;
            }
            let w = step_up(values[2]);
            let h = step_up(values[3]);
            values.set(2, w);
            values.set(3, h);
        },
        Wheel::Still => {},
    }
    assert(values_of(values@) =~= scrolled(before, wheel));
    Some(vec_to_string(values))
}

} // verus!
