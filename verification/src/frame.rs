//! Fitting a selected shape into a detail view: the translation that centres
//! the shape in its container, and the view box that frames it with a margin.
//!
//! A renderer measures in fractions of a unit. A `BoundingBox` keeps them:
//! its numbers count parts of a unit, `PARTS_PER_UNIT` to the unit, and the
//! results are cut to whole units only after the arithmetic.

use vstd::prelude::*;
use crate::point::Point;
use crate::point::Vector;
use crate::scale::Ratio;
use crate::scale::Scale;
use crate::viewbox::ViewBox;
use crate::viewbox::Viewport;

verus! {

/// The number of parts into which a `BoundingBox` divides one unit of
/// container space.
pub const PARTS_PER_UNIT: i64 = 0x1_0000_0000;

/// The mathematical box that a `BoundingBox` stands for, in parts of a unit.
pub struct Bounds {
    pub x: int,
    pub y: int,
    pub width: int,
    pub height: int,
}

/// A measured box: where a shape or a container lies and how far it
/// extends, each number in parts of a unit. A snapshot taken by the
/// renderer.
#[derive(Debug, Clone, Copy, PartialEq, Eq, Structural)]
pub struct BoundingBox {
    pub x: i64,
    pub y: i64,
    pub width: i64,
    pub height: i64,
}

impl View for BoundingBox {
    type V = Bounds;

    open spec fn view(&self) -> Bounds {
        Bounds {
            x: self.x as int,
            y: self.y as int,
            width: self.width as int,
            height: self.height as int,
        }
    }
}

/// `a` divided by the positive `b`, truncated toward zero.
pub open spec fn truncated(a: int, b: int) -> int {
    if a >= 0 {
        a / b
    } else {
        -((-a) / b)
    }
}

/// Half of `a`, truncated toward zero.
pub open spec fn half(a: int) -> int {
    truncated(a, 2)
}

/// `a` where an `i32` can hold it, else the nearest value that one can hold.
pub open spec fn clamped(a: int) -> int {
    if a < i32::MIN {
        i32::MIN as int
    } else if a > i32::MAX {
        i32::MAX as int
    } else {
        a
    }
}

/// A measured length, in parts, as the extent of a view box: its whole
/// units, and nothing below zero.
pub open spec fn extent(a: int) -> int {
    if a < 0 {
        0
    } else {
        a / (PARTS_PER_UNIT as int)
    }
}

impl Bounds {
    /// All four numbers can be held by a `BoundingBox`.
    pub open spec fn fits(self) -> bool {
        &&& i64::MIN <= self.x <= i64::MAX
        &&& i64::MIN <= self.y <= i64::MAX
        &&& i64::MIN <= self.width <= i64::MAX
        &&& i64::MIN <= self.height <= i64::MAX
    }

    /// The box of the given position and extents in whole units.
    pub open spec fn of_units(x: int, y: int, width: int, height: int) -> Bounds {
        Bounds {
            x: x * PARTS_PER_UNIT,
            y: y * PARTS_PER_UNIT,
            width: width * PARTS_PER_UNIT,
            height: height * PARTS_PER_UNIT,
        }
    }

    /// The middle of the box in its own coordinates: half of each extent,
    /// cut to whole units.
    pub open spec fn middle(self) -> Vector {
        Vector {
            x: truncated(self.width, 2 * PARTS_PER_UNIT),
            y: truncated(self.height, 2 * PARTS_PER_UNIT),
        }
    }
}

/// The translation, in whole units, that puts `shape` in the middle of
/// `container`.
///
/// Along each axis it is `(container extent - shape extent) / 2 - shape
/// position`, taken exactly and only then truncated toward zero to whole
/// units; a result that an `i32` cannot hold is clamped. Where the container
/// lies plays no part.
pub open spec fn centering_offset(shape: Bounds, container: Bounds) -> Vector {
    Vector {
        x: clamped(
            truncated(container.width - shape.width - 2 * shape.x, 2 * PARTS_PER_UNIT),
        ),
        y: clamped(
            truncated(container.height - shape.height - 2 * shape.y, 2 * PARTS_PER_UNIT),
        ),
    }
}

/// The view box of the size of `shape`, centred on the middle of `container`,
/// before any margin is added. Its limits are switched off.
pub open spec fn framing_start(shape: Bounds, container: Bounds) -> Viewport {
    Viewport {
        top_left: container.middle().minus(shape.middle()),
        w: extent(shape.width),
        h: extent(shape.height),
        zoom_in_limit: 0,
        zoom_out_limit: 0,
    }
}

/// The view box that frames `shape`: `framing_start` zoomed about its own
/// centre by `margin_scale`.
pub open spec fn framing_viewport(shape: Bounds, container: Bounds, margin_scale: Ratio) -> Viewport {
    framing_start(shape, container).zoomed_to_center(margin_scale)
}

impl BoundingBox {
    /// The box of the given position and extents in whole units.
    pub fn from_units(x: i32, y: i32, width: i32, height: i32) -> (measured: BoundingBox)
        ensures
            measured@ == Bounds::of_units(x as int, y as int, width as int, height as int),
    {
        BoundingBox {
            x: x as i64 * PARTS_PER_UNIT,
            y: y as i64 * PARTS_PER_UNIT,
            width: width as i64 * PARTS_PER_UNIT,
            height: height as i64 * PARTS_PER_UNIT,
        }
    }
}

fn truncate(a: i128, b: i128) -> (q: i128)
    requires
        -0x4_0000_0000_0000_0000 <= a <= 0x4_0000_0000_0000_0000,
        0 < b,
    ensures
        q == truncated(a as int, b as int),
        a >= 0 ==> 0 <= q <= a,
        a <= 0 ==> a <= q <= 0,
{
    proof {
        let n: int = if a >= 0 {
            a as int
        } else {
            -a
        };
        vstd::arithmetic::div_mod::lemma_div_pos_is_pos(n, b as int);
        vstd::arithmetic::div_mod::lemma_div_is_ordered_by_denominator(n, 1, b as int);
    }
    if a >= 0 {
        a / b
    } else {
        -((-a) / b)
    }
}

fn clamp_to_i32(a: i128) -> (c: i32)
    ensures
        c == clamped(a as int),
{
    if a < i32::MIN as i128 {
        i32::MIN
    } else if a > i32::MAX as i128 {
        i32::MAX
    } else {
        a as i32
    }
}

/// Computes the translation that centres `shape_box` in `container_box`.
pub fn compute_centering_offset(shape_box: &BoundingBox, container_box: &BoundingBox) -> (offset:
    Point)
    ensures
        offset@ == centering_offset(shape_box@, container_box@),
{
    let x = truncate(
        container_box.width as i128 - shape_box.width as i128 - 2 * (shape_box.x as i128),
        2 * (PARTS_PER_UNIT as i128),
    );
    let y = truncate(
        container_box.height as i128 - shape_box.height as i128 - 2 * (shape_box.y as i128),
        2 * (PARTS_PER_UNIT as i128),
    );
    Point { x: clamp_to_i32(x), y: clamp_to_i32(y) }
}

fn bare_view_box(shape_box: &BoundingBox, container_box: &BoundingBox) -> (view_box: ViewBox)
    ensures
        view_box@ == framing_start(shape_box@, container_box@),
{
    let two_units: i128 = 2 * (PARTS_PER_UNIT as i128);
    proof {
        lemma_middle_fits(shape_box@);
        lemma_middle_fits(container_box@);
    }
    let left = truncate(container_box.width as i128, two_units) - truncate(
        shape_box.width as i128,
        two_units,
    );
    let top = truncate(container_box.height as i128, two_units) - truncate(
        shape_box.height as i128,
        two_units,
    );
    ViewBox {
        top_left: Point { x: left as i32, y: top as i32 },
        w: if shape_box.width < 0 {
            0
        } else {
            (shape_box.width / PARTS_PER_UNIT) as u32
        },
        h: if shape_box.height < 0 {
            0
        } else {
            (shape_box.height / PARTS_PER_UNIT) as u32
        },
        zoom_in_limit: 0,
        zoom_out_limit: 0,
    }
}

/// Whether `compute_framing_viewport` may be called: whether the framing
/// view box has its origin within the range of `i32`.
pub fn can_frame(shape_box: &BoundingBox, container_box: &BoundingBox, margin_scale: Scale) -> (ok:
    bool)
    ensures
        ok == framing_viewport(shape_box@, container_box@, margin_scale@).fits(),
{
    bare_view_box(shape_box, container_box).can_zoom_to_center(margin_scale)
}

/// Computes the view box that frames `shape_box` in the middle of
/// `container_box`, with the margin that zooming by `margin_scale` adds
/// (a factor below one zooms out and leaves room around the shape).
///
/// The extents of the result are the whole units of the shape's extents
/// divided by `margin_scale`, and for a shape of extents that are not
/// negative its centre is the middle of the container.
pub fn compute_framing_viewport(
    shape_box: &BoundingBox,
    container_box: &BoundingBox,
    margin_scale: Scale,
) -> (view_box: ViewBox)
    requires
        framing_viewport(shape_box@, container_box@, margin_scale@).fits(),
    ensures
        view_box@ == framing_viewport(shape_box@, container_box@, margin_scale@),
        view_box@.w == margin_scale@.divide(extent(shape_box@.width)),
        view_box@.h == margin_scale@.divide(extent(shape_box@.height)),
        view_box@.limits_disabled(),
        shape_box@.width >= 0 && shape_box@.height >= 0 ==> view_box@.center()
            == container_box@.middle(),
{
    proof {
        lemma_framing_is_centered(shape_box@, container_box@, margin_scale@);
    }
    let mut view_box = bare_view_box(shape_box, container_box);
    view_box.zoom_to_center(margin_scale);
    view_box
}

/// The middle of a box that a `BoundingBox` can hold lies within a quarter
/// of the range of `i32` from its origin.
pub proof fn lemma_middle_fits(measured: Bounds)
    requires
        measured.fits(),
    ensures
        -0x4000_0000 <= measured.middle().x < 0x4000_0000,
        -0x4000_0000 <= measured.middle().y < 0x4000_0000,
{
}

/// The whole units of half a length are half of its whole units.
pub proof fn lemma_half_of_extent(a: int)
    requires
        a >= 0,
    ensures
        extent(a) / 2 == truncated(a, 2 * PARTS_PER_UNIT),
{
    vstd::arithmetic::div_mod::lemma_div_denominator(a, PARTS_PER_UNIT as int, 2);
}

/// The framing view box has the whole units of the shape's extents, divided
/// by the margin factor, and no limits. It is centred where the view box of
/// the bare shape is; for a shape of extents that are not negative, that is
/// the middle of the container.
pub proof fn lemma_framing_is_centered(shape: Bounds, container: Bounds, margin_scale: Ratio)
    ensures
        framing_viewport(shape, container, margin_scale).w == margin_scale.divide(
            extent(shape.width),
        ),
        framing_viewport(shape, container, margin_scale).h == margin_scale.divide(
            extent(shape.height),
        ),
        framing_viewport(shape, container, margin_scale).limits_disabled(),
        framing_viewport(shape, container, margin_scale).center() == framing_start(
            shape,
            container,
        ).center(),
        shape.width >= 0 && shape.height >= 0 ==> framing_viewport(
            shape,
            container,
            margin_scale,
        ).center() == container.middle(),
{
    if shape.width >= 0 {
        lemma_half_of_extent(shape.width);
    }
    if shape.height >= 0 {
        lemma_half_of_extent(shape.height);
    }
}

/// Moved by the centering offset, a shape lies in the middle of its
/// container: what is left of the container on either side of it differs by
/// less than two units, so the two centres are less than one unit apart.
/// This holds wherever the offset was not clamped.
pub proof fn lemma_offset_centers_shape(shape: Bounds, container: Bounds)
    requires
        centering_offset(shape, container).x == truncated(
            container.width - shape.width - 2 * shape.x,
            2 * PARTS_PER_UNIT,
        ),
        centering_offset(shape, container).y == truncated(
            container.height - shape.height - 2 * shape.y,
            2 * PARTS_PER_UNIT,
        ),
    ensures
        ({
            let moved_x = shape.x + centering_offset(shape, container).x * PARTS_PER_UNIT;
            let moved_y = shape.y + centering_offset(shape, container).y * PARTS_PER_UNIT;
            let right = container.width - (moved_x + shape.width);
            let below = container.height - (moved_y + shape.height);
            &&& -2 * PARTS_PER_UNIT < right - moved_x < 2 * PARTS_PER_UNIT
            &&& -2 * PARTS_PER_UNIT < below - moved_y < 2 * PARTS_PER_UNIT
        }),
{
    let p = PARTS_PER_UNIT as int;
    let across = centering_offset(shape, container).x;
    let down = centering_offset(shape, container).y;
    lemma_truncated_remainder(container.width - shape.width - 2 * shape.x, 2 * p);
    lemma_truncated_remainder(container.height - shape.height - 2 * shape.y, 2 * p);
    assert(across * (2 * p) == 2 * (across * p)) by (nonlinear_arith);
    assert(down * (2 * p) == 2 * (down * p)) by (nonlinear_arith);
}

/// Truncating a quotient toward zero leaves less than the divisor, on the
/// side of the dividend.
pub proof fn lemma_truncated_remainder(a: int, b: int)
    requires
        b > 0,
    ensures
        a >= 0 ==> 0 <= a - truncated(a, b) * b < b,
        a <= 0 ==> -b < a - truncated(a, b) * b <= 0,
{
    let n = if a >= 0 {
        a
    } else {
        -a
    };
    vstd::arithmetic::div_mod::lemma_fundamental_div_mod(n, b);
    vstd::arithmetic::div_mod::lemma_mod_pos_bound(n, b);
    assert((n / b) * b == b * (n / b)) by (nonlinear_arith);
    assert((-(n / b)) * b == -((n / b) * b)) by (nonlinear_arith);
}

/// For boxes given in whole units the centering offset is `(container
/// extent - shape extent) / 2 - shape position` in whole units, the half
/// taken exactly and the result truncated toward zero.
pub proof fn lemma_offset_of_units(
    x: int,
    y: int,
    width: int,
    height: int,
    container_width: int,
    container_height: int,
)
    ensures
        centering_offset(
            Bounds::of_units(x, y, width, height),
            Bounds::of_units(0, 0, container_width, container_height),
        ) == (Vector {
            x: clamped(half(container_width - width - 2 * x)),
            y: clamped(half(container_height - height - 2 * y)),
        }),
{
    lemma_truncated_units(container_width - width - 2 * x);
    lemma_truncated_units(container_height - height - 2 * y);
}

/// A whole number of units, divided by two units, is half the number.
pub proof fn lemma_truncated_units(a: int)
    ensures
        truncated(a * PARTS_PER_UNIT, 2 * PARTS_PER_UNIT) == half(a),
{
    let n = if a >= 0 {
        a
    } else {
        -a
    };
    let p = PARTS_PER_UNIT as int;
    vstd::arithmetic::div_mod::lemma_div_denominator(n * p, p, 2);
    vstd::arithmetic::div_mod::lemma_div_multiples_vanish(n, p);
}

} // verus!
