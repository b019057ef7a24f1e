//! The detail view of one selected country: when its shape is measured, and
//! what is made of the measurement.

use vstd::prelude::*;
use crate::frame::can_frame;
use crate::frame::centering_offset;
use crate::frame::compute_centering_offset;
use crate::frame::compute_framing_viewport;
use crate::frame::framing_viewport;
use crate::frame::BoundingBox;
use crate::point::Point;
use crate::settings::country_view_ratio;
use crate::settings::country_view_scale;
use crate::viewbox::ViewBox;

verus! {

/// The state of the detail view.
#[derive(Debug, Clone, Copy, PartialEq, Eq, Structural)]
pub struct CountryView {
    /// The translation that centres the country's shape, along `x`.
    pub country_translate_x: i32,
    /// The translation that centres the country's shape, along `y`.
    pub country_translate_y: i32,
    /// Whether the shape shown now has been measured and framed.
    pub transformed: bool,
    /// The view box that frames the shape.
    pub view_box: ViewBox,
}

/// What is to be done after the view has been drawn.
#[derive(Debug, Clone, Copy, PartialEq, Eq, Structural)]
pub enum RenderStep {
    /// Hide the view: nothing is selected yet.
    Hide,
    /// Measure the shape and its container, hand the boxes to `transform`,
    /// and draw again.
    Measure,
    /// Nothing.
    Nothing,
}

impl CountryView {
    /// The view before anything is selected: no translation, an empty view
    /// box without limits, nothing framed.
    pub fn new() -> (view: CountryView)
        ensures
            view == (CountryView {
                country_translate_x: 0,
                country_translate_y: 0,
                transformed: false,
                view_box: ViewBox {
                    top_left: Point { x: 0, y: 0 },
                    w: 0,
                    h: 0,
                    zoom_in_limit: 0,
                    zoom_out_limit: 0,
                },
            }),
    {
        CountryView {
            country_translate_x: 0,
            country_translate_y: 0,
            transformed: false,
            view_box: ViewBox {
                top_left: Point { x: 0, y: 0 },
                w: 0,
                h: 0,
                zoom_in_limit: 0,
                zoom_out_limit: 0,
            },
        }
    }

    /// Decides what follows a drawing of the view.
    ///
    /// The first drawing only hides the view. A later one asks for a
    /// measurement while the shape has not been framed: a shape is never
    /// measured before it has been laid out once.
    pub fn rendered(&self, first_render: bool) -> (step: RenderStep)
        ensures
            step == if first_render {
                RenderStep::Hide
            } else if !self.transformed {
                RenderStep::Measure
            } else {
                RenderStep::Nothing
            },
    {
        if first_render {
            RenderStep::Hide
        } else if !self.transformed {
            RenderStep::Measure
        } else {
            RenderStep::Nothing
        }
    }

    /// Whether `transform` may be called with these boxes: whether the
    /// framing view box has its origin within the range of `i32`.
    pub fn can_transform(shape_box: &BoundingBox, container_box: &BoundingBox) -> (ok: bool)
        ensures
            ok == framing_viewport(shape_box@, container_box@, country_view_ratio()).fits(),
    {
        can_frame(shape_box, container_box, country_view_scale())
    }

    /// Takes over a measurement: centres the shape, frames it with the
    /// detail view's margin, and marks the view as framed.
    pub fn transform(&mut self, shape_box: &BoundingBox, container_box: &BoundingBox)
        requires
            framing_viewport(shape_box@, container_box@, country_view_ratio()).fits(),
        ensures
            final(self).country_translate_x == centering_offset(shape_box@, container_box@).x,
            final(self).country_translate_y == centering_offset(shape_box@, container_box@).y,
            final(self).view_box@ == framing_viewport(
                shape_box@,
                container_box@,
                country_view_ratio(),
            ),
            final(self).transformed,
    {
        let offset = compute_centering_offset(shape_box, container_box);
        self.country_translate_x = offset.x;
        self.country_translate_y = offset.y;
        self.view_box = compute_framing_viewport(shape_box, container_box, country_view_scale());
        self.transformed = true;
    }

    /// Takes note that another country was selected: its shape has yet to be
    /// measured. Translation and view box stay until then.
    pub fn change(&mut self)
        ensures
            *final(self) == (CountryView { transformed: false, ..*old(self) }),
    {
        self.transformed = false;
    }
}

} // verus!
