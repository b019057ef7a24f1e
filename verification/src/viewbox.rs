//! The visible rectangle of a map surface: panning, zooming about a centre,
//! and the zoom limits that stop a gesture.

use vstd::prelude::*;
use vstd::string::StringExecFns;
use crate::point::Point;
use crate::point::Vector;
use crate::scale::Ratio;
use crate::scale::Scale;
use crate::scale::lemma_divide_direction;
use crate::scale::lemma_divide_round_trip;
use crate::text::append_decimal;
use crate::text::decimal;
use crate::text::integer;
use crate::text::integer_within;
use crate::text::joined;
use crate::text::lemma_joined_round_trip;
use crate::text::parse_integer;
use crate::text::split_whitespace;
use crate::text::tokens;

verus! {

/// The mathematical rectangle, with its zoom limits, that a `ViewBox` stands for.
pub struct Viewport {
    pub top_left: Vector,
    pub w: int,
    pub h: int,
    pub zoom_in_limit: int,
    pub zoom_out_limit: int,
}

impl Viewport {
    /// Extents and limits are within what a `ViewBox` can hold.
    pub open spec fn valid(self) -> bool {
        &&& 0 <= self.w <= u32::MAX
        &&& 0 <= self.h <= u32::MAX
        &&& 0 <= self.zoom_in_limit <= u32::MAX
        &&& 0 <= self.zoom_out_limit <= u32::MAX
    }

    /// The whole rectangle, origin included, can be held by a `ViewBox`.
    pub open spec fn fits(self) -> bool {
        self.valid() && self.top_left.fits()
    }

    /// The anchor of a zoom: the origin moved by half of each extent.
    pub open spec fn center(self) -> Vector {
        Vector { x: self.top_left.x + self.w / 2, y: self.top_left.y + self.h / 2 }
    }

    /// The smaller of width and height.
    pub open spec fn min_extent(self) -> int {
        if self.w <= self.h {
            self.w
        } else {
            self.h
        }
    }

    /// The larger of width and height.
    pub open spec fn max_extent(self) -> int {
        if self.w >= self.h {
            self.w
        } else {
            self.h
        }
    }

    /// Both limits are zero, so no zoom is ever refused.
    pub open spec fn limits_disabled(self) -> bool {
        self.zoom_in_limit == 0 && self.zoom_out_limit == 0
    }

    /// The rectangle with both extents divided by `scale`, origin untouched.
    pub open spec fn resized(self, scale: Ratio) -> Viewport {
        Viewport { w: scale.divide(self.w), h: scale.divide(self.h), ..self }
    }

    /// Whether a zoom by `scale` is carried out.
    ///
    /// A zoom in is refused where `zoom_in_limit` is set and the zoom would
    /// leave the smaller extent at or below it. A zoom out is refused where
    /// `zoom_out_limit` is set and the zoom would leave the larger extent at
    /// or above it. A limit of zero is not set and refuses nothing, whatever
    /// the other limit is. A factor of exactly one is never refused.
    pub open spec fn zoom_allowed(self, scale: Ratio) -> bool {
        &&& !(scale.zooms_in() && self.zoom_in_limit != 0 && self.resized(scale).min_extent()
            <= self.zoom_in_limit)
        &&& !(scale.zooms_out() && self.zoom_out_limit != 0 && self.resized(scale).max_extent()
            >= self.zoom_out_limit)
    }

    /// The rectangle after a zoom by `scale` that puts its centre on `center`;
    /// the rectangle itself where the zoom is refused.
    pub open spec fn zoomed_to(self, center: Vector, scale: Ratio) -> Viewport {
        if self.zoom_allowed(scale) {
            Viewport {
                top_left: Vector {
                    x: center.x - scale.divide(self.w) / 2,
                    y: center.y - scale.divide(self.h) / 2,
                },
                ..self.resized(scale)
            }
        } else {
            self
        }
    }

    /// The rectangle after a zoom by `scale` about its own centre.
    pub open spec fn zoomed_to_center(self, scale: Ratio) -> Viewport {
        self.zoomed_to(self.center(), scale)
    }

    /// The rectangle moved by `delta`.
    pub open spec fn panned(self, delta: Vector) -> Viewport {
        Viewport { top_left: self.top_left.plus(delta), ..self }
    }

    /// The four numbers that describe the rectangle to a renderer: the
    /// origin's `x` and `y`, then width and height.
    pub open spec fn numbers(self) -> Seq<int> {
        seq![self.top_left.x, self.top_left.y, self.w, self.h]
    }

    /// The rectangle as text: its four numbers in decimal, separated by
    /// single spaces.
    pub open spec fn serialized(self) -> Seq<char> {
        joined(self.numbers())
    }

    /// The rectangle that `text` describes, with the limits switched off.
    ///
    /// The text must consist of four whitespace-separated integers. The
    /// first two must fit an `i32`, the last two a `u32`.
    pub open spec fn parsed(text: Seq<char>) -> Option<Viewport> {
        let t = tokens(text);
        if t.len() == 4 && integer_within(t[0], i32::MIN as int, i32::MAX as int) is Some
            && integer_within(t[1], i32::MIN as int, i32::MAX as int) is Some && integer_within(
            t[2],
            0,
            u32::MAX as int,
        ) is Some && integer_within(t[3], 0, u32::MAX as int) is Some {
            Some(
                Viewport {
                    top_left: Vector { x: integer(t[0])->0, y: integer(t[1])->0 },
                    w: integer(t[2])->0,
                    h: integer(t[3])->0,
                    zoom_in_limit: 0,
                    zoom_out_limit: 0,
                },
            )
        } else {
            None
        }
    }
}

/// A rectangular window onto view space, with optional zoom limits.
///
/// `zoom_in_limit` bounds the smaller extent from below and `zoom_out_limit`
/// bounds the larger extent from above. Each is optional: zero switches that
/// limit off.
#[derive(Debug, Clone, Copy, PartialEq, Eq, Structural)]
pub struct ViewBox {
    pub top_left: Point,
    pub w: u32,
    pub h: u32,
    pub zoom_in_limit: u32,
    pub zoom_out_limit: u32,
}

impl View for ViewBox {
    type V = Viewport;

    open spec fn view(&self) -> Viewport {
        Viewport {
            top_left: self.top_left@,
            w: self.w as int,
            h: self.h as int,
            zoom_in_limit: self.zoom_in_limit as int,
            zoom_out_limit: self.zoom_out_limit as int,
        }
    }
}

/// The centre axis value that `zoom_to` and `zoom_to_center` hand on: wide
/// enough for any origin plus half of any extent.
spec fn axis_in_reach(c: int) -> bool {
    -0x1_0000_0000 <= c <= 0x1_0000_0000
}

impl ViewBox {
    /// Decides whether a zoom by `scale` is carried out or silently dropped.
    pub fn check_zoom_limits(&self, scale: Scale) -> (ok: bool)
        ensures
            ok == self@.zoom_allowed(scale@),
    {
        let w = scale.divide(self.w);
        let h = scale.divide(self.h);
        let smaller = if w <= h { w } else { h };
        let larger = if w >= h { w } else { h };
        if scale.zooms_in() && self.zoom_in_limit != 0 && smaller <= self.zoom_in_limit {
            return false;
        }
        if scale.zooms_out() && self.zoom_out_limit != 0 && larger >= self.zoom_out_limit {
            return false;
        }
        true
    }

    fn can_zoom_about(&self, cx: i64, cy: i64, scale: Scale) -> (ok: bool)
        requires
            axis_in_reach(cx as int),
            axis_in_reach(cy as int),
        ensures
            ok == self@.zoomed_to(Vector { x: cx as int, y: cy as int }, scale@).fits(),
    {
        if !self.check_zoom_limits(scale) {
            return true;
        }
        let x = cx - (scale.divide(self.w) / 2) as i64;
        let y = cy - (scale.divide(self.h) / 2) as i64;
        i32::MIN as i64 <= x && x <= i32::MAX as i64 && i32::MIN as i64 <= y && y <= i32::MAX as i64
    }

    fn zoom_about(&mut self, cx: i64, cy: i64, scale: Scale)
        requires
            axis_in_reach(cx as int),
            axis_in_reach(cy as int),
            old(self)@.zoomed_to(Vector { x: cx as int, y: cy as int }, scale@).fits(),
        ensures
            final(self)@ == old(self)@.zoomed_to(Vector { x: cx as int, y: cy as int }, scale@),
    {
        if !self.check_zoom_limits(scale) {
            return;
        }
        self.w = scale.divide(self.w);
        self.h = scale.divide(self.h);
        self.top_left = Point {
            x: (cx - (self.w / 2) as i64) as i32,
            y: (cy - (self.h / 2) as i64) as i32,
        };
    }

    /// Whether `zoom_to` may be called: true unless the zoom would be carried
    /// out and would put the origin outside the range of `i32`.
    pub fn can_zoom_to(&self, zoom_center: Point, scale: Scale) -> (ok: bool)
        ensures
            ok == self@.zoomed_to(zoom_center@, scale@).fits(),
    {
        self.can_zoom_about(zoom_center.x as i64, zoom_center.y as i64, scale)
    }

    /// Divides both extents by `scale`, truncating, and moves the origin so
    /// that `zoom_center` is the centre of the new rectangle. Where the zoom
    /// limits refuse the step, nothing changes.
    pub fn zoom_to(&mut self, zoom_center: Point, scale: Scale)
        requires
            old(self)@.zoomed_to(zoom_center@, scale@).fits(),
        ensures
            final(self)@ == old(self)@.zoomed_to(zoom_center@, scale@),
    {
        self.zoom_about(zoom_center.x as i64, zoom_center.y as i64, scale)
    }

    /// Whether `zoom_to_center` may be called: true unless the zoom would be
    /// carried out and would put the origin outside the range of `i32`.
    pub fn can_zoom_to_center(&self, scale: Scale) -> (ok: bool)
        ensures
            ok == self@.zoomed_to_center(scale@).fits(),
    {
        let cx = self.top_left.x as i64 + (self.w / 2) as i64;
        let cy = self.top_left.y as i64 + (self.h / 2) as i64;
        self.can_zoom_about(cx, cy, scale)
    }

    /// Zooms by `scale` about the rectangle's own centre, which stays where
    /// it is. Where the zoom limits refuse the step, nothing changes.
    pub fn zoom_to_center(&mut self, scale: Scale)
        requires
            old(self)@.zoomed_to_center(scale@).fits(),
        ensures
            final(self)@ == old(self)@.zoomed_to_center(scale@),
    {
        let cx = self.top_left.x as i64 + (self.w / 2) as i64;
        let cy = self.top_left.y as i64 + (self.h / 2) as i64;
        self.zoom_about(cx, cy, scale)
    }

    /// Writes the rectangle for a renderer as `"{x} {y} {w} {h}"`.
    pub fn to_string(&self) -> (text: String)
        ensures
            text@ == self@.serialized(),
    {
        proof {
            reveal_strlit(" ");
        }
        let mut text = String::new();
        append_decimal(&mut text, self.top_left.x as i64);
        text.append(" ");
        append_decimal(&mut text, self.top_left.y as i64);
        text.append(" ");
        append_decimal(&mut text, self.w as i64);
        text.append(" ");
        append_decimal(&mut text, self.h as i64);
        proof {
            lemma_joined_of_four(
                self.top_left.x as int,
                self.top_left.y as int,
                self.w as int,
                self.h as int,
            );
        }
        text
    }

    /// Reads a rectangle back from the text that `to_string` writes. The
    /// limits of the result are switched off.
    ///
    /// Gives `None` unless the text holds exactly four whitespace-separated
    /// integers of which the first two fit an `i32` and the last two a `u32`.
    pub fn parse(text: &str) -> (view_box: Option<ViewBox>)
        ensures
            match view_box {
                Some(b) => Viewport::parsed(text@) == Some(b@),
                None => Viewport::parsed(text@) is None,
            },
    {
        let words = split_whitespace(text);
        if words.len() != 4 {
            return None;
        }
        let x = parse_integer(&words[0], i32::MIN as i64, i32::MAX as i64);
        let y = parse_integer(&words[1], i32::MIN as i64, i32::MAX as i64);
        let w = parse_integer(&words[2], 0, u32::MAX as i64);
        let h = parse_integer(&words[3], 0, u32::MAX as i64);
        match (x, y, w, h) {
            (Some(x), Some(y), Some(w), Some(h)) => Some(
                ViewBox {
                    top_left: Point { x: x as i32, y: y as i32 },
                    w: w as u32,
                    h: h as u32,
                    zoom_in_limit: 0,
                    zoom_out_limit: 0,
                },
            ),
            _ => None,
        }
    }

    /// Whether `drag` may be called: whether the moved origin stays within
    /// the range of `i32`.
    pub fn can_drag(&self, delta: Point) -> (ok: bool)
        ensures
            ok == self@.panned(delta@).fits(),
    {
        self.top_left.can_add(delta)
    }

    /// Moves the origin by `delta`. No zoom limit applies.
    pub fn drag(&mut self, delta: Point)
        requires
            old(self)@.panned(delta@).fits(),
        ensures
            final(self)@ == old(self)@.panned(delta@),
    {
        self.top_left = self.top_left + delta;
    }
}

/// Panning by a displacement and then by its negation restores the origin
/// exactly, and with it the whole rectangle: panning is never limited.
pub proof fn lemma_pan_round_trip(v: Viewport, delta: Vector)
    ensures
        v.panned(delta).panned(delta.negated()) == v,
        v.panned(delta).top_left == v.top_left.plus(delta),
        v.panned(delta).w == v.w && v.panned(delta).h == v.h,
{
    crate::point::lemma_plus_minus_cancel(v.top_left, delta);
}

/// A zoom about the rectangle's own centre leaves that centre where it was,
/// whether the step is carried out or refused; a zoom that is carried out
/// about any other point makes that point the centre.
pub proof fn lemma_zoom_keeps_center(v: Viewport, center: Vector, scale: Ratio)
    ensures
        v.zoomed_to_center(scale).center() == v.center(),
        v.zoom_allowed(scale) ==> v.zoomed_to(center, scale).center() == center,
{
}

/// A zoom by a factor of exactly one is never refused and changes nothing.
pub proof fn lemma_unit_zoom_is_identity(v: Viewport, scale: Ratio)
    requires
        v.valid(),
        scale.positive(),
        scale.num == scale.den,
    ensures
        v.zoom_allowed(scale),
        v.zoomed_to_center(scale) == v,
{
    lemma_divide_direction(scale, v.w);
    lemma_divide_direction(scale, v.h);
}

/// With the limits switched off, a zoom about the centre followed by the
/// zoom with the reciprocal factor restores the centre exactly and gives
/// back no extent larger than it was.
///
/// Where the first zoom did not run into the cap on extents, an extent comes
/// back short by at most one unit exactly where the remainder of `extent *
/// den` by `num` is at most `den`. That is so for every factor of at most
/// one; after a zoom in by a larger factor more than one unit can be lost.
pub proof fn lemma_zoom_round_trip(v: Viewport, scale: Ratio)
    requires
        v.valid(),
        v.limits_disabled(),
        scale.positive(),
    ensures
        ({
            let back = v.zoomed_to_center(scale).zoomed_to_center(scale.inverse());
            &&& back.center() == v.center()
            &&& back.w <= v.w
            &&& back.h <= v.h
            &&& scale.quotient(v.w) <= u32::MAX ==> (v.w - back.w <= 1 <==> (v.w * scale.den)
                % scale.num <= scale.den)
            &&& scale.quotient(v.h) <= u32::MAX ==> (v.h - back.h <= 1 <==> (v.h * scale.den)
                % scale.num <= scale.den)
            &&& scale.num <= scale.den && scale.quotient(v.w) <= u32::MAX ==> v.w - back.w <= 1
            &&& scale.num <= scale.den && scale.quotient(v.h) <= u32::MAX ==> v.h - back.h <= 1
        }),
{
    lemma_divide_round_trip(scale, v.w);
    lemma_divide_round_trip(scale, v.h);
}

/// With both limits switched off no zoom is refused, and a limit that is
/// switched off refuses nothing beside one that is set: a zoom is refused if
/// and only if it would reach a limit that is set.
pub proof fn lemma_zoom_refused_only_by_set_limits(v: Viewport, scale: Ratio)
    ensures
        v.limits_disabled() ==> v.zoom_allowed(scale),
        v.zoom_in_limit == 0 && scale.zooms_in() ==> v.zoom_allowed(scale),
        v.zoom_out_limit == 0 && scale.zooms_out() ==> v.zoom_allowed(scale),
        !v.zoom_allowed(scale) <==> (scale.zooms_in() && v.zoom_in_limit != 0 && v.resized(
            scale,
        ).min_extent() <= v.zoom_in_limit) || (scale.zooms_out() && v.zoom_out_limit != 0
            && v.resized(scale).max_extent() >= v.zoom_out_limit),
{
}

/// A zoom that is carried out ends within the limits that are set: after a
/// zoom in the smaller extent is above a set `zoom_in_limit`, after a zoom
/// out the larger extent is below a set `zoom_out_limit`.
pub proof fn lemma_zoom_ends_within_limits(v: Viewport, center: Vector, scale: Ratio)
    requires
        v.zoom_allowed(scale),
    ensures
        scale.zooms_in() && v.zoom_in_limit != 0 ==> v.zoomed_to(center, scale).min_extent()
            > v.zoom_in_limit,
        scale.zooms_out() && v.zoom_out_limit != 0 ==> v.zoomed_to(center, scale).max_extent()
            < v.zoom_out_limit,
{
}

/// No zoom in takes the smaller extent from above a set `zoom_in_limit` to
/// it or below it, and no zoom out takes the larger extent from below a set
/// `zoom_out_limit` to it or above it: a sequence of wheel steps that starts
/// within the limits stays within them.
pub proof fn lemma_zoom_never_crosses_limits(v: Viewport, center: Vector, scale: Ratio)
    ensures
        scale.zooms_in() && v.zoom_in_limit != 0 && v.min_extent() > v.zoom_in_limit
            ==> v.zoomed_to(center, scale).min_extent() > v.zoom_in_limit,
        scale.zooms_out() && v.zoom_out_limit != 0 && v.max_extent() < v.zoom_out_limit
            ==> v.zoomed_to(center, scale).max_extent() < v.zoom_out_limit,
{
}

/// Once the smaller extent is at or below a set `zoom_in_limit`, every zoom
/// in is refused; once the larger extent is at or above a set
/// `zoom_out_limit`, every zoom out is.
pub proof fn lemma_zoom_stops_at_limits(v: Viewport, center: Vector, scale: Ratio)
    requires
        v.valid(),
        scale.positive(),
    ensures
        scale.zooms_in() && v.zoom_in_limit != 0 && v.min_extent() <= v.zoom_in_limit
            ==> v.zoomed_to(center, scale) == v,
        scale.zooms_out() && v.zoom_out_limit != 0 && v.max_extent() >= v.zoom_out_limit
            ==> v.zoomed_to(center, scale) == v,
{
    lemma_divide_direction(scale, v.w);
    lemma_divide_direction(scale, v.h);
}

/// A zoom leaves a rectangle of positive extents either unchanged or with
/// positive extents again, provided that the factor is at most one, or that
/// `zoom_in_limit` is set, or that neither extent is smaller than the
/// factor.
pub proof fn lemma_zoom_keeps_extents_positive(v: Viewport, center: Vector, scale: Ratio)
    requires
        v.valid(),
        scale.positive(),
        v.w > 0,
        v.h > 0,
        !scale.zooms_in() || v.zoom_in_limit != 0 || (v.w * scale.den >= scale.num && v.h
            * scale.den >= scale.num),
    ensures
        ({
            let next = v.zoomed_to(center, scale);
            next == v || (next.w > 0 && next.h > 0)
        }),
{
    lemma_divide_direction(scale, v.w);
    lemma_divide_direction(scale, v.h);
    crate::scale::lemma_quotient_bounds(scale, v.w);
    crate::scale::lemma_quotient_bounds(scale, v.h);
    let qw = scale.quotient(v.w);
    let qh = scale.quotient(v.h);
    if v.w * scale.den >= scale.num {
        assert(qw > 0) by (nonlinear_arith)
            requires
                v.w * scale.den < (qw + 1) * scale.num,
                v.w * scale.den >= scale.num,
                scale.num > 0,
                qw >= 0,
        ;
    }
    if v.h * scale.den >= scale.num {
        assert(qh > 0) by (nonlinear_arith)
            requires
                v.h * scale.den < (qh + 1) * scale.num,
                v.h * scale.den >= scale.num,
                scale.num > 0,
                qh >= 0,
        ;
    }
}

/// Four numbers written with `joined` are their decimal texts with one
/// space between each two.
pub proof fn lemma_joined_of_four(a: int, b: int, c: int, d: int)
    ensures
        joined(seq![a, b, c, d]) == decimal(a) + seq![' '] + decimal(b) + seq![' '] + decimal(c)
            + seq![' '] + decimal(d),
{
    let four = seq![a, b, c, d];
    let three = seq![a, b, c];
    let two = seq![a, b];
    let one = seq![a];
    assert(four.drop_last() =~= three);
    assert(three.drop_last() =~= two);
    assert(two.drop_last() =~= one);
    assert(joined(two) == joined(one) + seq![' '] + decimal(b));
    assert(joined(four) == joined(three) + seq![' '] + decimal(d));
}

/// The text of a rectangle always holds exactly four whitespace-separated
/// tokens, each of them the decimal text of one of its numbers, and reading
/// the text of a rectangle that a `ViewBox` can hold gives back origin,
/// width and height without loss.
pub proof fn lemma_serialize_round_trip(v: Viewport)
    ensures
        tokens(v.serialized()).len() == 4,
        forall|i: int|
            0 <= i < 4 ==> integer(#[trigger] tokens(v.serialized())[i]) == Some(v.numbers()[i]),
        v.fits() ==> Viewport::parsed(v.serialized()) == Some(
            Viewport { zoom_in_limit: 0, zoom_out_limit: 0, ..v },
        ),
{
    lemma_joined_round_trip(v.numbers());
}

} // verus!
