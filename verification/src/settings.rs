//! The numbers and addresses that the map and the detail view are set up with.

use vstd::prelude::*;
use vstd::string::StringExecFns;
use crate::scale::Ratio;
use crate::scale::Scale;

verus! {

/// The margin factor of the detail view, in hundredths: seven tenths, which
/// zooms out and leaves room around the framed shape.
pub const COUNTRY_VIEW_SCALE_PERCENT: u32 = 70;

/// The change of scale that one step of the wheel makes, in hundredths.
pub const MAP_ZOOM_STEP_PERCENT: u32 = 5;

/// The extent of the map when it is first shown, and the largest extent that
/// zooming out may reach.
pub const MAP_ZOOM_MIN: u32 = 2000;

/// The smallest extent that zooming in may reach.
pub const MAP_ZOOM_MAX: u32 = 300;

/// The kinds of information that an info block can show.
#[derive(Debug, Clone, Copy, PartialEq, Eq, Structural)]
pub enum BlockType {
    Vaccine,
}

/// The address of the icon that heads a block of the given kind.
pub open spec fn block_icon(block_type: BlockType) -> Seq<char> {
    match block_type {
        BlockType::Vaccine => "http://cdn.onlinewebfonts.com/svg/img_319799.png"@,
    }
}

/// The address of the icon that heads a block of the given kind.
pub fn get_block_icon(block_type: BlockType) -> (address: String)
    ensures
        address@ == block_icon(block_type),
{
    match block_type {
        BlockType::Vaccine => String::from_str("http://cdn.onlinewebfonts.com/svg/img_319799.png"),
    }
}

/// The margin factor of the detail view as a ratio.
pub open spec fn country_view_ratio() -> Ratio {
    Ratio { num: COUNTRY_VIEW_SCALE_PERCENT as int, den: 100 }
}

/// The factor of one wheel step that zooms in: one plus the step.
pub open spec fn zoom_in_ratio() -> Ratio {
    Ratio { num: 100 + MAP_ZOOM_STEP_PERCENT, den: 100 }
}

/// The factor of one wheel step that zooms out: one minus the step.
pub open spec fn zoom_out_ratio() -> Ratio {
    Ratio { num: 100 - MAP_ZOOM_STEP_PERCENT, den: 100 }
}

/// The margin factor of the detail view.
pub fn country_view_scale() -> (scale: Scale)
    ensures
        scale@ == country_view_ratio(),
{
    Scale::of(COUNTRY_VIEW_SCALE_PERCENT, 100)
}

/// The factor of one wheel step that zooms in.
pub fn zoom_in_scale() -> (scale: Scale)
    ensures
        scale@ == zoom_in_ratio(),
{
    Scale::of(100 + MAP_ZOOM_STEP_PERCENT, 100)
}

/// The factor of one wheel step that zooms out.
pub fn zoom_out_scale() -> (scale: Scale)
    ensures
        scale@ == zoom_out_ratio(),
{
    Scale::of(100 - MAP_ZOOM_STEP_PERCENT, 100)
}

} // verus!
