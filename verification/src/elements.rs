//! The closed value sets of the engine and their native codes.
//!
//! Each enum lists exactly the values this layer lets a caller name, and each
//! value has one fixed code that the engine understands. The codes are spelled
//! out here, once, and every call is built from them.

use vstd::prelude::*;

verus! {

/// Number of entries in the engine's table of colorable elements.
pub const PLOT_COLOR_ELEMENT_COUNT: i32 = 24;

/// Number of entries in the engine's table of style variables.
pub const STYLE_VAR_COUNT: i32 = 27;

/// Number of marker shapes the engine draws.
pub const MARKER_COUNT: i32 = 10;

/// The engine's code for drawing no marker at all.
pub const NO_MARKER: i32 = -1;

/// Number of colormaps built into the engine.
pub const COLORMAP_COUNT: i32 = 11;

/// Marker shapes.
#[derive(Clone, Copy, Debug, PartialEq, Eq)]
pub enum Marker {
    /// No marker.
    NoMarker,
    /// A circle at each point.
    Circle,
    /// A square at each point.
    Square,
    /// A diamond at each point.
    Diamond,
    /// A triangle pointing up at each point.
    Up,
    /// A triangle pointing down at each point.
    Down,
    /// A triangle pointing left at each point.
    Left,
    /// A triangle pointing right at each point.
    Right,
    /// A cross at each point, not filled.
    Cross,
    /// A plus at each point, not filled.
    Plus,
    /// An asterisk at each point, not filled.
    Asterisk,
}

impl Marker {
    /// The engine's code for this marker.
    pub open spec fn native(self) -> i32 {
        match self {
            Marker::NoMarker => NO_MARKER,
            Marker::Circle => 0,
            Marker::Square => 1,
            Marker::Diamond => 2,
            Marker::Up => 3,
            Marker::Down => 4,
            Marker::Left => 5,
            Marker::Right => 6,
            Marker::Cross => 7,
            Marker::Plus => 8,
            Marker::Asterisk => 9,
        }
    }

    /// The engine's code for this marker, as the value of the marker style
    /// variable.
    pub fn code(&self) -> (code: i32)
        ensures
            code == self.native(),
            NO_MARKER <= code < MARKER_COUNT,
    {
        match self {
            Marker::NoMarker => NO_MARKER,
            Marker::Circle => 0,
            Marker::Square => 1,
            Marker::Diamond => 2,
            Marker::Up => 3,
            Marker::Down => 4,
            Marker::Left => 5,
            Marker::Right => 6,
            Marker::Cross => 7,
            Marker::Plus => 8,
            Marker::Asterisk => 9,
        }
    }
}

/// Colorable plot elements: not colors, but the things that can be given one.
#[derive(Clone, Copy, Debug, PartialEq, Eq)]
pub enum PlotColorElement {
    /// Line and outline of a plot item (default: next unused color of the colormap).
    Line,
    /// Fill of bars (default: the line color).
    Fill,
    /// Outline of markers (default: the line color).
    MarkerOutline,
    /// Fill of markers (default: the line color).
    MarkerFill,
    /// Error bars (default: the text color).
    ErrorBar,
    /// Background of the plot frame.
    FrameBg,
    /// Background of the plot area.
    PlotBg,
    /// Border of the plot area.
    PlotBorder,
    /// Background of the legend.
    LegendBackground,
    /// Border of the legend.
    LegendBorder,
    /// Text of the legend.
    LegendText,
    /// Text of the plot title.
    TitleText,
    /// Text drawn inside the plot.
    InlayText,
    /// Label and tick labels of the X axis.
    XAxis,
    /// Grid of the X axis.
    XAxisGrid,
    /// Label and tick labels of the first Y axis.
    YAxis,
    /// Grid of the first Y axis.
    YAxisGrid,
    /// Label and tick labels of the second Y axis.
    YAxis2,
    /// Grid of the second Y axis.
    YAxisGrid2,
    /// Label and tick labels of the third Y axis.
    YAxis3,
    /// Grid of the third Y axis.
    YAxisGrid3,
    /// Box selection (default: yellow).
    Selection,
    /// Crosshairs (default: the plot border color).
    Crosshairs,
    /// Box query (default: green).
    Query,
}

impl PlotColorElement {
    /// The engine's code for this element. Note that the query color comes
    /// before the crosshairs color in the engine's table.
    pub open spec fn native(self) -> i32 {
        match self {
            PlotColorElement::Line => 0,
            PlotColorElement::Fill => 1,
            PlotColorElement::MarkerOutline => 2,
            PlotColorElement::MarkerFill => 3,
            PlotColorElement::ErrorBar => 4,
            PlotColorElement::FrameBg => 5,
            PlotColorElement::PlotBg => 6,
            PlotColorElement::PlotBorder => 7,
            PlotColorElement::LegendBackground => 8,
            PlotColorElement::LegendBorder => 9,
            PlotColorElement::LegendText => 10,
            PlotColorElement::TitleText => 11,
            PlotColorElement::InlayText => 12,
            PlotColorElement::XAxis => 13,
            PlotColorElement::XAxisGrid => 14,
            PlotColorElement::YAxis => 15,
            PlotColorElement::YAxisGrid => 16,
            PlotColorElement::YAxis2 => 17,
            PlotColorElement::YAxisGrid2 => 18,
            PlotColorElement::YAxis3 => 19,
            PlotColorElement::YAxisGrid3 => 20,
            PlotColorElement::Selection => 21,
            PlotColorElement::Crosshairs => 23,
            PlotColorElement::Query => 22,
        }
    }

    /// The engine's code for this element, an index into its color table.
    pub fn code(&self) -> (code: i32)
        ensures
            code == self.native(),
            0 <= code < PLOT_COLOR_ELEMENT_COUNT,
    {
        match self {
            PlotColorElement::Line => 0,
            PlotColorElement::Fill => 1,
            PlotColorElement::MarkerOutline => 2,
            PlotColorElement::MarkerFill => 3,
            PlotColorElement::ErrorBar => 4,
            PlotColorElement::FrameBg => 5,
            PlotColorElement::PlotBg => 6,
            PlotColorElement::PlotBorder => 7,
            PlotColorElement::LegendBackground => 8,
            PlotColorElement::LegendBorder => 9,
            PlotColorElement::LegendText => 10,
            PlotColorElement::TitleText => 11,
            PlotColorElement::InlayText => 12,
            PlotColorElement::XAxis => 13,
            PlotColorElement::XAxisGrid => 14,
            PlotColorElement::YAxis => 15,
            PlotColorElement::YAxisGrid => 16,
            PlotColorElement::YAxis2 => 17,
            PlotColorElement::YAxisGrid2 => 18,
            PlotColorElement::YAxis3 => 19,
            PlotColorElement::YAxisGrid3 => 20,
            PlotColorElement::Selection => 21,
            PlotColorElement::Crosshairs => 23,
            PlotColorElement::Query => 22,
        }
    }
}

/// The colormaps built into the engine.
#[derive(Clone, Copy, Debug, PartialEq, Eq)]
pub enum Colormap {
    /// The engine's default colormap, ten colors.
    Standard,
    /// Also known as seaborn deep, ten colors.
    Deep,
    /// Also known as matplotlib "Set1", nine colors.
    Dark,
    /// Also known as matplotlib "Pastel1", nine colors.
    Pastel,
    /// Also known as matplotlib "Paired", twelve colors.
    Paired,
    /// Also known as matplotlib "viridis", eleven colors.
    Viridis,
    /// Also known as matplotlib "plasma", eleven colors.
    Plasma,
    /// Also known as "hot", eleven colors.
    Hot,
    /// Also known as "cool", eleven colors.
    Cool,
    /// Also known as "pink", eleven colors.
    Pink,
    /// Also known as "jet", eleven colors.
    Jet,
}

impl Colormap {
    /// The engine's code for this colormap.
    pub open spec fn native(self) -> i32 {
        match self {
            Colormap::Standard => 0,
            Colormap::Deep => 1,
            Colormap::Dark => 2,
            Colormap::Pastel => 3,
            Colormap::Paired => 4,
            Colormap::Viridis => 5,
            Colormap::Plasma => 6,
            Colormap::Hot => 7,
            Colormap::Cool => 8,
            Colormap::Pink => 9,
            Colormap::Jet => 10,
        }
    }

    /// The engine's code for this colormap, an index into its colormap table.
    pub fn code(&self) -> (code: i32)
        ensures
            code == self.native(),
            0 <= code < COLORMAP_COUNT,
    {
        match self {
            Colormap::Standard => 0,
            Colormap::Deep => 1,
            Colormap::Dark => 2,
            Colormap::Pastel => 3,
            Colormap::Paired => 4,
            Colormap::Viridis => 5,
            Colormap::Plasma => 6,
            Colormap::Hot => 7,
            Colormap::Cool => 8,
            Colormap::Pink => 9,
            Colormap::Jet => 10,
        }
    }
}

/// The shape of value a style variable holds.
#[derive(Clone, Copy, Debug, PartialEq, Eq, Structural)]
pub enum StyleVarKind {
    /// One single-precision number.
    Float,
    /// One integer.
    Int,
    /// Two single-precision numbers.
    Vec2,
}

/// The shape of value that the engine's table of style variables gives for the
/// variable with the given code: an integer for the marker, a number for the
/// weights, sizes and alphas in front of the tick lengths, and a pair from the
/// tick lengths on.
pub open spec fn style_var_shape(code: i32) -> StyleVarKind {
    if code == 1 {
        StyleVarKind::Int
    } else if code <= 10 {
        StyleVarKind::Float
    } else {
        StyleVarKind::Vec2
    }
}

/// Style variables. Each holds a value of one shape, given by [`StyleVar::kind`].
#[derive(Clone, Copy, Debug, PartialEq, Eq)]
pub enum StyleVar {
    /// Number, line weight in pixels.
    LineWeight,
    /// Integer, marker specification.
    Marker,
    /// Number, marker size in pixels (roughly the marker's radius).
    MarkerSize,
    /// Number, outline weight of markers in pixels.
    MarkerWeight,
    /// Number, alpha modifier applied to all plot item fills.
    FillAlpha,
    /// Number, error bar whisker width in pixels.
    ErrorBarSize,
    /// Number, error bar whisker weight in pixels.
    ErrorBarWeight,
    /// Number, digital channels bit height (at 1) in pixels.
    DigitalBitHeight,
    /// Number, digital channels bit padding gap in pixels.
    DigitalBitGap,
    /// Number, thickness of the border around the plot area.
    PlotBorderSize,
    /// Number, alpha multiplier applied to minor axis grid lines.
    MinorAlpha,
    /// Pair, major tick lengths for X and Y axes.
    MajorTickLen,
    /// Pair, minor tick lengths for X and Y axes.
    MinorTickLen,
    /// Pair, line thickness of major ticks.
    MajorTickSize,
    /// Pair, line thickness of minor ticks.
    MinorTickSize,
    /// Pair, line thickness of major grid lines.
    MajorGridSize,
    /// Pair, line thickness of minor grid lines.
    MinorGridSize,
    /// Pair, padding between widget frame and plot area and/or labels.
    PlotPadding,
    /// Pair, padding between axes labels, tick labels, and plot edge.
    LabelPadding,
    /// Pair, legend padding from the top-left of the plot.
    LegendPadding,
    /// Pair, legend inner padding from the legend's edges.
    LegendInnerPadding,
    /// Pair, spacing between legend entries.
    LegendSpacing,
    /// Pair, padding between plot edge and interior info text.
    MousePosPadding,
    /// Pair, text padding around annotation labels.
    AnnotationPadding,
    /// Pair, size of a plot that is begun without one.
    PlotDefaultSize,
    /// Pair, smallest size a plot frame can be shrunk to.
    PlotMinSize,
}

impl StyleVar {
    /// The engine's code for this variable. The engine's table has one more
    /// variable, in front of the default plot size, that cannot be named here.
    pub open spec fn native(self) -> i32 {
        match self {
            StyleVar::LineWeight => 0,
            StyleVar::Marker => 1,
            StyleVar::MarkerSize => 2,
            StyleVar::MarkerWeight => 3,
            StyleVar::FillAlpha => 4,
            StyleVar::ErrorBarSize => 5,
            StyleVar::ErrorBarWeight => 6,
            StyleVar::DigitalBitHeight => 7,
            StyleVar::DigitalBitGap => 8,
            StyleVar::PlotBorderSize => 9,
            StyleVar::MinorAlpha => 10,
            StyleVar::MajorTickLen => 11,
            StyleVar::MinorTickLen => 12,
            StyleVar::MajorTickSize => 13,
            StyleVar::MinorTickSize => 14,
            StyleVar::MajorGridSize => 15,
            StyleVar::MinorGridSize => 16,
            StyleVar::PlotPadding => 17,
            StyleVar::LabelPadding => 18,
            StyleVar::LegendPadding => 19,
            StyleVar::LegendInnerPadding => 20,
            StyleVar::LegendSpacing => 21,
            StyleVar::MousePosPadding => 22,
            StyleVar::AnnotationPadding => 23,
            StyleVar::PlotDefaultSize => 25,
            StyleVar::PlotMinSize => 26,
        }
    }

    /// The shape of value this variable holds.
    pub open spec fn shape(self) -> StyleVarKind {
        style_var_shape(self.native())
    }

    /// The engine's code for this variable, an index into its variable table.
    pub fn code(&self) -> (code: i32)
        ensures
            code == self.native(),
            0 <= code < STYLE_VAR_COUNT,
    {
        match self {
            StyleVar::LineWeight => 0,
            StyleVar::Marker => 1,
            StyleVar::MarkerSize => 2,
            StyleVar::MarkerWeight => 3,
            StyleVar::FillAlpha => 4,
            StyleVar::ErrorBarSize => 5,
            StyleVar::ErrorBarWeight => 6,
            StyleVar::DigitalBitHeight => 7,
            StyleVar::DigitalBitGap => 8,
            StyleVar::PlotBorderSize => 9,
            StyleVar::MinorAlpha => 10,
            StyleVar::MajorTickLen => 11,
            StyleVar::MinorTickLen => 12,
            StyleVar::MajorTickSize => 13,
            StyleVar::MinorTickSize => 14,
            StyleVar::MajorGridSize => 15,
            StyleVar::MinorGridSize => 16,
            StyleVar::PlotPadding => 17,
            StyleVar::LabelPadding => 18,
            StyleVar::LegendPadding => 19,
            StyleVar::LegendInnerPadding => 20,
            StyleVar::LegendSpacing => 21,
            StyleVar::MousePosPadding => 22,
            StyleVar::AnnotationPadding => 23,
            StyleVar::PlotDefaultSize => 25,
            StyleVar::PlotMinSize => 26,
        }
    }

    /// The shape of value this variable holds.
    pub fn kind(&self) -> (kind: StyleVarKind)
        ensures
            kind == self.shape(),
    {
        match self {
            StyleVar::Marker => StyleVarKind::Int,
            StyleVar::LineWeight
            | StyleVar::MarkerSize
            | StyleVar::MarkerWeight
            | StyleVar::FillAlpha
            | StyleVar::ErrorBarSize
            | StyleVar::ErrorBarWeight
            | StyleVar::DigitalBitHeight
            | StyleVar::DigitalBitGap
            | StyleVar::PlotBorderSize
            | StyleVar::MinorAlpha => StyleVarKind::Float,
            _ => StyleVarKind::Vec2,
        }
    }
}

/// Where an item such as a legend or a label sits on a plot.
#[derive(Clone, Copy, Debug, PartialEq, Eq)]
pub enum PlotLocation {
    /// Center-center.
    Center,
    /// Top-center.
    North,
    /// Bottom-center.
    South,
    /// Center-left.
    West,
    /// Center-right.
    East,
    /// Top-left.
    NorthWest,
    /// Top-right.
    NorthEast,
    /// Bottom-left.
    SouthWest,
    /// Bottom-right.
    SouthEast,
}

impl PlotLocation {
    /// The engine's code for this location: one bit for each of north, south,
    /// west and east, so that a corner is the sum of its two sides.
    pub open spec fn native(self) -> i32 {
        match self {
            PlotLocation::Center => 0,
            PlotLocation::North => 1,
            PlotLocation::South => 2,
            PlotLocation::West => 4,
            PlotLocation::East => 8,
            PlotLocation::NorthWest => 5,
            PlotLocation::NorthEast => 9,
            PlotLocation::SouthWest => 6,
            PlotLocation::SouthEast => 10,
        }
    }

    /// The engine's code for this location.
    pub fn code(&self) -> (code: i32)
        ensures
            code == self.native(),
            0 <= code <= 10,
    {
        match self {
            PlotLocation::Center => 0,
            PlotLocation::North => 1,
            PlotLocation::South => 2,
            PlotLocation::West => 4,
            PlotLocation::East => 8,
            PlotLocation::NorthWest => 5,
            PlotLocation::NorthEast => 9,
            PlotLocation::SouthWest => 6,
            PlotLocation::SouthEast => 10,
        }
    }
}

/// How an item such as a legend is laid out on a plot.
#[derive(Clone, Copy, Debug, PartialEq, Eq)]
pub enum PlotOrientation {
    Horizontal,
    Vertical,
}

impl PlotOrientation {
    /// The engine's code for this orientation.
    pub open spec fn native(self) -> i32 {
        match self {
            PlotOrientation::Horizontal => 0,
            PlotOrientation::Vertical => 1,
        }
    }

    /// The engine's code for this orientation.
    pub fn code(&self) -> (code: i32)
        ensures
            code == self.native(),
            0 <= code <= 1,
    {
        match self {
            PlotOrientation::Horizontal => 0,
            PlotOrientation::Vertical => 1,
        }
    }
}

/// No two markers share a code.
pub proof fn lemma_marker_code_injective(a: Marker, b: Marker)
    ensures
        a.native() == b.native() <==> a == b,
{
}

/// No two colorable elements share a code.
pub proof fn lemma_color_element_code_injective(a: PlotColorElement, b: PlotColorElement)
    ensures
        a.native() == b.native() <==> a == b,
{
}

/// No two colormaps share a code.
pub proof fn lemma_colormap_code_injective(a: Colormap, b: Colormap)
    ensures
        a.native() == b.native() <==> a == b,
{
}

/// No two style variables share a code.
pub proof fn lemma_style_var_code_injective(a: StyleVar, b: StyleVar)
    ensures
        a.native() == b.native() <==> a == b,
{
}

/// No two locations share a code, and each corner's code is the sum of the
/// codes of the two sides that meet in it.
pub proof fn lemma_location_code_injective(a: PlotLocation, b: PlotLocation)
    ensures
        a.native() == b.native() <==> a == b,
        PlotLocation::NorthWest.native() == PlotLocation::North.native()
            + PlotLocation::West.native(),
        PlotLocation::NorthEast.native() == PlotLocation::North.native()
            + PlotLocation::East.native(),
        PlotLocation::SouthWest.native() == PlotLocation::South.native()
            + PlotLocation::West.native(),
        PlotLocation::SouthEast.native() == PlotLocation::South.native()
            + PlotLocation::East.native(),
{
}

/// No two orientations share a code.
pub proof fn lemma_orientation_code_injective(a: PlotOrientation, b: PlotOrientation)
    ensures
        a.native() == b.native() <==> a == b,
{
}

} // verus!
