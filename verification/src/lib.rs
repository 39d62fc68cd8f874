//! A verified safety layer for the ImPlot immediate-mode plotting engine.
//!
//! ImPlot is driven through one global context: style overrides are pushed on
//! and popped off two engine-side stacks, a "current" Y axis is selected
//! implicitly, and every query refers to the current or most recent plot.
//! This crate holds the decisions of that protocol and nothing else. Every
//! operation takes the [`PlotUi`] handle and returns the [`EngineCall`] that
//! has to be issued to the engine, with all arguments already in their native
//! encoding; the embedding application performs the call. The handle keeps a
//! ledger of the two override stacks, so that the effect of each operation on
//! the engine can be stated, and is proved, against the model in [`engine`].
//! What the tokens of [`style`] guarantee over a whole run is proved in
//! [`discipline`].

pub mod axis;
pub mod discipline;
pub mod elements;
pub mod engine;
pub mod error;
pub mod query;
pub mod style;
pub mod ui;
pub mod values;

pub use crate::axis::{y_axis_choice_option_to_i32, YAxisChoice, IMPLOT_AUTO, NUMBER_OF_Y_AXES};
pub use crate::engine::{ColorOverride, EngineCall, OverrideStacks, VarOverride};
pub use crate::values::{ColorBits, LimitsBits, PointBits, RangeBits, StyleValue, Vec2Bits};
pub use crate::elements::{
    Colormap, Marker, PlotColorElement, PlotLocation, PlotOrientation, StyleVar, StyleVarKind,
    COLORMAP_COUNT, MARKER_COUNT, NO_MARKER, PLOT_COLOR_ELEMENT_COUNT, STYLE_VAR_COUNT,
};
pub use crate::ui::PlotUi;
pub use crate::error::StyleStackError;
pub use crate::style::{
    push_style_color, push_style_var, push_style_var_f32, push_style_var_i32,
    push_style_var_imvec2, set_colormap_from_preset, set_colormap_from_vec, StyleColorToken,
    StyleVarToken,
};
pub use crate::query::{
    get_plot_limits, get_plot_mouse_position, get_plot_query, is_plot_hovered, is_plot_queried,
    is_plot_x_axis_hovered, is_plot_y_axis_hovered, pixels_to_plot_f32, pixels_to_plot_vec2,
    plot_to_pixels_f32, plot_to_pixels_vec2, set_plot_y_axis, show_demo_window,
};
