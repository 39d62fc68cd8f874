//! Axis selection, coordinate conversion and queries of plot state.
//!
//! Everything here refers to the current or most recent plot of the engine,
//! and every operation that takes an axis encodes it in the same way, through
//! [`y_axis_choice_option_to_i32`]. No operation reads or changes the override
//! stacks, and none depends on whether a plot has been drawn yet: the call is
//! built from the arguments alone, and each answer buffer starts out zeroed.

use crate::axis::{axis_code, y_axis_choice_option_to_i32, YAxisChoice};
use crate::engine::{active_axis_after, resolved_axis, EngineCall};
use crate::ui::PlotUi;
use crate::values::{LimitsBits, PointBits, Vec2Bits};
use vstd::prelude::*;

verus! {

/// Asks whether the plot area of the current or most recent plot is hovered.
pub fn is_plot_hovered(_ui: &PlotUi) -> (call: EngineCall)
    ensures
        call == EngineCall::IsPlotHovered,
{
    EngineCall::IsPlotHovered
}

/// Asks whether the current or most recent plot is queried.
pub fn is_plot_queried(_ui: &PlotUi) -> (call: EngineCall)
    ensures
        call == EngineCall::IsPlotQueried,
{
    EngineCall::IsPlotQueried
}

/// Asks for the mouse position in the coordinates of the current or most
/// recent plot, for the given choice of Y axis. `None` means the axis that is
/// active in the engine.
pub fn get_plot_mouse_position(_ui: &PlotUi, y_axis_choice: Option<YAxisChoice>) -> (call:
    EngineCall)
    ensures
        call == (EngineCall::GetPlotMousePos {
            out: PointBits::zero(),
            y_axis: axis_code(y_axis_choice),
        }),
{
    let y_axis_choice_i32: i32 = y_axis_choice_option_to_i32(y_axis_choice);
    let point = PointBits::zeroed();
    EngineCall::GetPlotMousePos { out: point, y_axis: y_axis_choice_i32 }
}

/// Asks to convert a pixel position to a position in the coordinates of the
/// current plot. Uses the given Y axis, if any, and the active one otherwise.
pub fn pixels_to_plot_vec2(
    _ui: &PlotUi,
    pixel_position: &Vec2Bits,
    y_axis_choice: Option<YAxisChoice>,
) -> (call: EngineCall)
    ensures
        call == (EngineCall::PixelsToPlotVec2 {
            out: PointBits::zero(),
            pixel: *pixel_position,
            y_axis: axis_code(y_axis_choice),
        }),
{
    let y_axis_choice_i32: i32 = y_axis_choice_option_to_i32(y_axis_choice);
    let point = PointBits::zeroed();
    EngineCall::PixelsToPlotVec2 { out: point, pixel: *pixel_position, y_axis: y_axis_choice_i32 }
}

/// Asks to convert a pixel position, given as the encodings of its two
/// single-precision coordinates, to a position in the coordinates of the
/// current plot. Uses the given Y axis, if any, and the active one otherwise.
pub fn pixels_to_plot_f32(
    _ui: &PlotUi,
    pixel_position_x: u32,
    pixel_position_y: u32,
    y_axis_choice: Option<YAxisChoice>,
) -> (call: EngineCall)
    ensures
        call == (EngineCall::PixelsToPlotFloat {
            out: PointBits::zero(),
            x: pixel_position_x,
            y: pixel_position_y,
            y_axis: axis_code(y_axis_choice),
        }),
{
    let y_axis_choice_i32: i32 = y_axis_choice_option_to_i32(y_axis_choice);
    let point = PointBits::zeroed();
    EngineCall::PixelsToPlotFloat {
        out: point,
        x: pixel_position_x,
        y: pixel_position_y,
        y_axis: y_axis_choice_i32,
    }
}

/// Asks to convert a position in the coordinates of the current plot to
/// pixels. Uses the given Y axis, if any, and the active one otherwise.
pub fn plot_to_pixels_vec2(
    _ui: &PlotUi,
    plot_position: &PointBits,
    y_axis_choice: Option<YAxisChoice>,
) -> (call: EngineCall)
    ensures
        call == (EngineCall::PlotToPixelsPoint {
            out: Vec2Bits::zero(),
            point: *plot_position,
            y_axis: axis_code(y_axis_choice),
        }),
{
    let y_axis_choice_i32: i32 = y_axis_choice_option_to_i32(y_axis_choice);
    let pixel_position = Vec2Bits::zeroed();
    EngineCall::PlotToPixelsPoint {
        out: pixel_position,
        point: *plot_position,
        y_axis: y_axis_choice_i32,
    }
}

/// Asks to convert a position in the coordinates of the current plot, given
/// as the encodings of its two double-precision coordinates, to pixels. Uses
/// the given Y axis, if any, and the active one otherwise.
pub fn plot_to_pixels_f32(
    _ui: &PlotUi,
    plot_position_x: u64,
    plot_position_y: u64,
    y_axis_choice: Option<YAxisChoice>,
) -> (call: EngineCall)
    ensures
        call == (EngineCall::PlotToPixelsDouble {
            out: Vec2Bits::zero(),
            x: plot_position_x,
            y: plot_position_y,
            y_axis: axis_code(y_axis_choice),
        }),
{
    let y_axis_choice_i32: i32 = y_axis_choice_option_to_i32(y_axis_choice);
    let pixel_position = Vec2Bits::zeroed();
    EngineCall::PlotToPixelsDouble {
        out: pixel_position,
        x: plot_position_x,
        y: plot_position_y,
        y_axis: y_axis_choice_i32,
    }
}

/// Asks for the axis ranges of the current or most recent plot, for the given
/// choice of Y axis. `None` means the axis that is active in the engine.
pub fn get_plot_limits(_ui: &PlotUi, y_axis_choice: Option<YAxisChoice>) -> (call: EngineCall)
    ensures
        call == (EngineCall::GetPlotLimits {
            out: LimitsBits::zero(),
            y_axis: axis_code(y_axis_choice),
        }),
{
    let y_axis_choice_i32: i32 = y_axis_choice_option_to_i32(y_axis_choice);
    let limits = LimitsBits::zeroed();
    EngineCall::GetPlotLimits { out: limits, y_axis: y_axis_choice_i32 }
}

/// Asks for the limits of the last box query in the current or most recent
/// plot, for the given choice of Y axis. `None` means the axis that is active
/// in the engine.
pub fn get_plot_query(_ui: &PlotUi, y_axis_choice: Option<YAxisChoice>) -> (call: EngineCall)
    ensures
        call == (EngineCall::GetPlotQuery {
            out: LimitsBits::zero(),
            y_axis: axis_code(y_axis_choice),
        }),
{
    let y_axis_choice_i32: i32 = y_axis_choice_option_to_i32(y_axis_choice);
    let limits = LimitsBits::zeroed();
    EngineCall::GetPlotQuery { out: limits, y_axis: y_axis_choice_i32 }
}

/// Makes the given Y axis the one that upcoming plot elements are drawn
/// against, and that the engine takes where no axis is named.
pub fn set_plot_y_axis(_ui: &PlotUi, y_axis_choice: YAxisChoice) -> (call: EngineCall)
    ensures
        call == (EngineCall::SetPlotYAxis { y_axis: y_axis_choice.native() }),
        forall|active: i32| #[trigger] active_axis_after(active, call) == y_axis_choice.native(),
{
    EngineCall::SetPlotYAxis { y_axis: y_axis_choice.code() }
}

/// Asks whether the X axis area of the current plot is hovered.
pub fn is_plot_x_axis_hovered(_ui: &PlotUi) -> (call: EngineCall)
    ensures
        call == EngineCall::IsPlotXAxisHovered,
{
    EngineCall::IsPlotXAxisHovered
}

/// Asks whether the area of the given Y axis of the current plot is hovered.
/// `None` means the axis that is active in the engine.
pub fn is_plot_y_axis_hovered(_ui: &PlotUi, y_axis_choice: Option<YAxisChoice>) -> (call:
    EngineCall)
    ensures
        call == (EngineCall::IsPlotYAxisHovered { y_axis: axis_code(y_axis_choice) }),
{
    let y_axis_choice_i32: i32 = y_axis_choice_option_to_i32(y_axis_choice);
    EngineCall::IsPlotYAxisHovered { y_axis: y_axis_choice_i32 }
}

/// Shows the engine's demo window, which displays what the engine has to
/// offer. `show` says whether the window is open; the engine answers whether
/// it still is.
pub fn show_demo_window(_ui: &PlotUi, show: bool) -> (call: EngineCall)
    ensures
        call == (EngineCall::ShowDemoWindow { open: show }),
{
    EngineCall::ShowDemoWindow { open: show }
}

/// An operation that is given an axis has the engine work on that axis,
/// whichever axis is active. An operation that is given none has the engine
/// work on its active axis: after an axis has been selected, on that one, and
/// not on the first axis unless that is the one selected.
pub proof fn lemma_no_choice_follows_the_selection(
    selected: YAxisChoice,
    named: YAxisChoice,
    active: i32,
)
    ensures
        resolved_axis(axis_code(Some(named)), active) == named.native(),
        resolved_axis(axis_code(None), active) == active,
        resolved_axis(
            axis_code(None),
            active_axis_after(active, EngineCall::SetPlotYAxis { y_axis: selected.native() }),
        ) == selected.native(),
{
}

} // verus!
