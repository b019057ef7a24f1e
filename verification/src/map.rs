//! What the main map does with pointer and wheel input: which event moves or
//! zooms the view box, which one is handed on, and when to draw again.

use vstd::prelude::*;
use crate::frame::half;
use crate::point::Point;
use crate::point::Vector;
use crate::settings::zoom_in_ratio;
use crate::settings::zoom_in_scale;
use crate::settings::zoom_out_ratio;
use crate::settings::zoom_out_scale;
use crate::settings::MAP_ZOOM_MAX;
use crate::settings::MAP_ZOOM_MIN;
use crate::viewbox::ViewBox;
use crate::viewbox::Viewport;

verus! {

/// Which way the wheel was turned, by the sign of its vertical delta.
#[derive(Debug, Clone, Copy, PartialEq, Eq, Structural)]
pub enum Wheel {
    /// A positive delta: zoom out by one step.
    Down,
    /// A negative delta: zoom in by one step.
    Up,
    /// No vertical delta.
    Still,
}

/// An input event of the map, reduced to what the map reads of it.
#[derive(Debug, Clone, Copy, PartialEq, Eq, Structural)]
pub enum MapEvent {
    /// A country was clicked.
    CountryClick,
    /// The pointer came over a country.
    CountryHover,
    /// The pointer moved, with the given buttons held down.
    Drag { buttons: u16, movement_x: i32, movement_y: i32 },
    /// The wheel was turned.
    Scroll { wheel: Wheel },
}

/// What is left to do outside the view box once an event has been handled.
#[derive(Debug, Clone, Copy, PartialEq, Eq, Structural)]
pub enum MapEffect {
    /// Nothing.
    Nothing,
    /// Hand the clicked country's identifier to the click listener.
    NotifyCountryClick,
    /// Move the country under the pointer to the top of the drawing order.
    RaiseCountry,
}

/// The result of handling one event.
#[derive(Debug, Clone, Copy, PartialEq, Eq, Structural)]
pub struct MapOutcome {
    /// Whether the map has to be drawn again.
    pub render: bool,
    /// What is left to do.
    pub effect: MapEffect,
}

/// The button mask of a drag: the primary button and no other.
pub const DRAG_BUTTONS: u16 = 1;

/// How far a pointer movement moves the view box: half as far, the other way.
pub open spec fn drag_delta(movement_x: int, movement_y: int) -> Vector {
    Vector { x: half(-movement_x), y: half(-movement_y) }
}

/// The view box after `event`.
///
/// A drag with the primary button alone pans by `drag_delta`; a turn of the
/// wheel zooms by one step about the centre, subject to the zoom limits;
/// nothing else touches the view box.
pub open spec fn view_after(v: Viewport, event: MapEvent) -> Viewport {
    match event {
        MapEvent::Drag { buttons, movement_x, movement_y } => if buttons == DRAG_BUTTONS {
            v.panned(drag_delta(movement_x as int, movement_y as int))
        } else {
            v
        },
        MapEvent::Scroll { wheel } => match wheel {
            Wheel::Down => v.zoomed_to_center(zoom_out_ratio()),
            Wheel::Up => v.zoomed_to_center(zoom_in_ratio()),
            Wheel::Still => v,
        },
        _ => v,
    }
}

/// What handling `event` asks of the caller.
///
/// A drag draws again only with the primary button alone; a turn of the
/// wheel always does; a click is handed to the listener, if there is one,
/// without drawing; a hover raises the country and draws.
pub open spec fn outcome_of(event: MapEvent, has_click_listener: bool) -> MapOutcome {
    match event {
        MapEvent::Drag { buttons, .. } => MapOutcome {
            render: buttons == DRAG_BUTTONS,
            effect: MapEffect::Nothing,
        },
        MapEvent::Scroll { .. } => MapOutcome { render: true, effect: MapEffect::Nothing },
        MapEvent::CountryClick => MapOutcome {
            render: false,
            effect: if has_click_listener {
                MapEffect::NotifyCountryClick
            } else {
                MapEffect::Nothing
            },
        },
        MapEvent::CountryHover => MapOutcome { render: true, effect: MapEffect::RaiseCountry },
    }
}

fn half_negated(movement: i32) -> (h: i32)
    ensures
        h == half(-(movement as int)),
{
    let negated: i64 = -(movement as i64);
    if negated >= 0 {
        (negated / 2) as i32
    } else {
        (-((-negated) / 2)) as i32
    }
}

/// The view box that the map starts with: at the origin, of the given
/// extents, with the map's zoom limits.
pub fn initial_view_box(width: u32, height: u32) -> (view_box: ViewBox)
    ensures
        view_box == (ViewBox {
            top_left: Point { x: 0, y: 0 },
            w: width,
            h: height,
            zoom_in_limit: MAP_ZOOM_MAX,
            zoom_out_limit: MAP_ZOOM_MIN,
        }),
{
    ViewBox {
        top_left: Point { x: 0, y: 0 },
        w: width,
        h: height,
        zoom_in_limit: MAP_ZOOM_MAX,
        zoom_out_limit: MAP_ZOOM_MIN,
    }
}

/// Whether `update` may be called with `event`: whether the view box after
/// the event still has its origin within the range of `i32`.
pub fn can_update(view_box: &ViewBox, event: MapEvent) -> (ok: bool)
    ensures
        ok == view_after(view_box@, event).fits(),
{
    match event {
        MapEvent::Drag { buttons, movement_x, movement_y } => {
            if buttons == DRAG_BUTTONS {
                view_box.can_drag(
                    Point { x: half_negated(movement_x), y: half_negated(movement_y) },
                )
            } else {
                true
            }
        },
        MapEvent::Scroll { wheel } => match wheel {
            Wheel::Down => view_box.can_zoom_to_center(zoom_out_scale()),
            Wheel::Up => view_box.can_zoom_to_center(zoom_in_scale()),
            Wheel::Still => true,
        },
        _ => true,
    }
}

/// Handles one event of the map: moves or zooms `view_box` as the event
/// asks, and says whether to draw again and what else is to be done.
pub fn update(view_box: &mut ViewBox, has_click_listener: bool, event: MapEvent) -> (outcome:
    MapOutcome)
    requires
        view_after(old(view_box)@, event).fits(),
    ensures
        final(view_box)@ == view_after(old(view_box)@, event),
        outcome == outcome_of(event, has_click_listener),
{
    match event {
        MapEvent::Drag { buttons, movement_x, movement_y } => {
            if buttons == DRAG_BUTTONS {
                view_box.drag(Point { x: half_negated(movement_x), y: half_negated(movement_y) });
                return MapOutcome { render: true, effect: MapEffect::Nothing };
            }
            MapOutcome { render: false, effect: MapEffect::Nothing }
        },
        MapEvent::Scroll { wheel } => {
            match wheel {
                Wheel::Down => view_box.zoom_to_center(zoom_out_scale()),
                Wheel::Up => view_box.zoom_to_center(zoom_in_scale()),
                Wheel::Still => {},
            }
            MapOutcome { render: true, effect: MapEffect::Nothing }
        },
        MapEvent::CountryClick => {
            if has_click_listener {
                MapOutcome { render: false, effect: MapEffect::NotifyCountryClick }
            } else {
                MapOutcome { render: false, effect: MapEffect::Nothing }
            }
        },
        MapEvent::CountryHover => MapOutcome { render: true, effect: MapEffect::RaiseCountry },
    }
}

/// Takes over new extents for the map. Origin and limits stay.
pub fn resize(view_box: &mut ViewBox, width: u32, height: u32)
    ensures
        *final(view_box) == (ViewBox { w: width, h: height, ..*old(view_box) }),
{
    view_box.w = width;
    view_box.h = height;
}

} // verus!
