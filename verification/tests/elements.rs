use implot::{
    Colormap, Marker, PlotColorElement, PlotLocation, PlotOrientation, StyleValue, StyleVar,
    StyleVarKind, Vec2Bits, COLORMAP_COUNT, MARKER_COUNT, NO_MARKER, PLOT_COLOR_ELEMENT_COUNT,
    STYLE_VAR_COUNT,
};

const MARKERS: [Marker; 11] = [
    Marker::NoMarker,
    Marker::Circle,
    Marker::Square,
    Marker::Diamond,
    Marker::Up,
    Marker::Down,
    Marker::Left,
    Marker::Right,
    Marker::Cross,
    Marker::Plus,
    Marker::Asterisk,
];

const COLOR_ELEMENTS: [PlotColorElement; 24] = [
    PlotColorElement::Line,
    PlotColorElement::Fill,
    PlotColorElement::MarkerOutline,
    PlotColorElement::MarkerFill,
    PlotColorElement::ErrorBar,
    PlotColorElement::FrameBg,
    PlotColorElement::PlotBg,
    PlotColorElement::PlotBorder,
    PlotColorElement::LegendBackground,
    PlotColorElement::LegendBorder,
    PlotColorElement::LegendText,
    PlotColorElement::TitleText,
    PlotColorElement::InlayText,
    PlotColorElement::XAxis,
    PlotColorElement::XAxisGrid,
    PlotColorElement::YAxis,
    PlotColorElement::YAxisGrid,
    PlotColorElement::YAxis2,
    PlotColorElement::YAxisGrid2,
    PlotColorElement::YAxis3,
    PlotColorElement::YAxisGrid3,
    PlotColorElement::Selection,
    PlotColorElement::Query,
    PlotColorElement::Crosshairs,
];

const COLORMAPS: [Colormap; 11] = [
    Colormap::Standard,
    Colormap::Deep,
    Colormap::Dark,
    Colormap::Pastel,
    Colormap::Paired,
    Colormap::Viridis,
    Colormap::Plasma,
    Colormap::Hot,
    Colormap::Cool,
    Colormap::Pink,
    Colormap::Jet,
];

const FLOAT_VARS: [StyleVar; 10] = [
    StyleVar::LineWeight,
    StyleVar::MarkerSize,
    StyleVar::MarkerWeight,
    StyleVar::FillAlpha,
    StyleVar::ErrorBarSize,
    StyleVar::ErrorBarWeight,
    StyleVar::DigitalBitHeight,
    StyleVar::DigitalBitGap,
    StyleVar::PlotBorderSize,
    StyleVar::MinorAlpha,
];

const VEC2_VARS: [StyleVar; 15] = [
    StyleVar::MajorTickLen,
    StyleVar::MinorTickLen,
    StyleVar::MajorTickSize,
    StyleVar::MinorTickSize,
    StyleVar::MajorGridSize,
    StyleVar::MinorGridSize,
    StyleVar::PlotPadding,
    StyleVar::LabelPadding,
    StyleVar::LegendPadding,
    StyleVar::LegendInnerPadding,
    StyleVar::LegendSpacing,
    StyleVar::MousePosPadding,
    StyleVar::AnnotationPadding,
    StyleVar::PlotDefaultSize,
    StyleVar::PlotMinSize,
];

const LOCATIONS: [PlotLocation; 9] = [
    PlotLocation::Center,
    PlotLocation::North,
    PlotLocation::South,
    PlotLocation::West,
    PlotLocation::East,
    PlotLocation::NorthWest,
    PlotLocation::NorthEast,
    PlotLocation::SouthWest,
    PlotLocation::SouthEast,
];

fn all_distinct(codes: &[i32]) -> bool {
    for (i, a) in codes.iter().enumerate() {
        for b in codes[i + 1..].iter() {
            if a == b {
                return false;
            }
        }
    }
    true
}

#[test]
fn marker_codes_run_from_no_marker_to_asterisk() {
    let codes: Vec<i32> = MARKERS.iter().map(|m| m.code()).collect();
    assert_eq!(codes, vec![-1, 0, 1, 2, 3, 4, 5, 6, 7, 8, 9]);
    assert_eq!(NO_MARKER, -1);
    assert_eq!(MARKER_COUNT, 10);
    assert_eq!(Marker::Cross.code(), 7);
}

#[test]
fn color_element_codes_follow_the_engine_table() {
    let codes: Vec<i32> = COLOR_ELEMENTS.iter().map(|e| e.code()).collect();
    let expected: Vec<i32> = (0..24).collect();
    assert_eq!(codes, expected);
    assert_eq!(PLOT_COLOR_ELEMENT_COUNT, 24);
    assert_eq!(PlotColorElement::Line.code(), 0);
    assert_eq!(PlotColorElement::LegendBackground.code(), 8);
    assert_eq!(PlotColorElement::Selection.code(), 21);
    assert_eq!(PlotColorElement::Query.code(), 22);
    assert_eq!(PlotColorElement::Crosshairs.code(), 23);
}

#[test]
fn colormap_codes_follow_the_engine_table() {
    let codes: Vec<i32> = COLORMAPS.iter().map(|c| c.code()).collect();
    let expected: Vec<i32> = (0..11).collect();
    assert_eq!(codes, expected);
    assert_eq!(COLORMAP_COUNT, 11);
    assert_eq!(Colormap::Standard.code(), 0);
    assert_eq!(Colormap::Jet.code(), 10);
}

#[test]
fn style_var_codes_follow_the_engine_table() {
    assert_eq!(StyleVar::LineWeight.code(), 0);
    assert_eq!(StyleVar::Marker.code(), 1);
    let float_codes: Vec<i32> = FLOAT_VARS[1..].iter().map(|v| v.code()).collect();
    assert_eq!(float_codes, vec![2, 3, 4, 5, 6, 7, 8, 9, 10]);
    let vec2_codes: Vec<i32> = VEC2_VARS.iter().map(|v| v.code()).collect();
    assert_eq!(vec2_codes, vec![11, 12, 13, 14, 15, 16, 17, 18, 19, 20, 21, 22, 23, 25, 26]);
    assert_eq!(StyleVar::AnnotationPadding.code(), 23);
    assert_eq!(StyleVar::PlotDefaultSize.code(), 25);
    assert_eq!(StyleVar::PlotMinSize.code(), 26);
    assert_eq!(STYLE_VAR_COUNT, 27);
}

#[test]
fn style_var_codes_are_distinct_and_in_range() {
    let mut codes: Vec<i32> = vec![StyleVar::Marker.code()];
    codes.extend(FLOAT_VARS.iter().map(|v| v.code()));
    codes.extend(VEC2_VARS.iter().map(|v| v.code()));
    assert_eq!(codes.len(), 26);
    assert!(all_distinct(&codes));
    assert!(codes.iter().all(|c| 0 <= *c && *c < STYLE_VAR_COUNT));
}

#[test]
fn every_style_var_has_its_documented_shape() {
    assert_eq!(StyleVar::Marker.kind(), StyleVarKind::Int);
    for var in FLOAT_VARS {
        assert_eq!(var.kind(), StyleVarKind::Float);
    }
    for var in VEC2_VARS {
        assert_eq!(var.kind(), StyleVarKind::Vec2);
    }
}

#[test]
fn every_style_value_reports_its_shape() {
    assert_eq!(StyleValue::Float(0x3f80_0000).kind(), StyleVarKind::Float);
    assert_eq!(StyleValue::Int(7).kind(), StyleVarKind::Int);
    assert_eq!(StyleValue::Vec2(Vec2Bits { x: 1, y: 2 }).kind(), StyleVarKind::Vec2);
}

#[test]
fn location_codes_combine_sides_into_corners() {
    let codes: Vec<i32> = LOCATIONS.iter().map(|l| l.code()).collect();
    assert_eq!(codes, vec![0, 1, 2, 4, 8, 5, 9, 6, 10]);
    assert!(all_distinct(&codes));
    assert_eq!(
        PlotLocation::NorthWest.code(),
        PlotLocation::North.code() | PlotLocation::West.code()
    );
    assert_eq!(
        PlotLocation::NorthEast.code(),
        PlotLocation::North.code() | PlotLocation::East.code()
    );
    assert_eq!(
        PlotLocation::SouthWest.code(),
        PlotLocation::South.code() | PlotLocation::West.code()
    );
    assert_eq!(
        PlotLocation::SouthEast.code(),
        PlotLocation::South.code() | PlotLocation::East.code()
    );
}

#[test]
fn orientation_codes_are_zero_and_one() {
    assert_eq!(PlotOrientation::Horizontal.code(), 0);
    assert_eq!(PlotOrientation::Vertical.code(), 1);
}

#[test]
fn codes_of_one_enum_never_collide() {
    let markers: Vec<i32> = MARKERS.iter().map(|m| m.code()).collect();
    let elements: Vec<i32> = COLOR_ELEMENTS.iter().map(|e| e.code()).collect();
    let colormaps: Vec<i32> = COLORMAPS.iter().map(|c| c.code()).collect();
    assert!(all_distinct(&markers));
    assert!(all_distinct(&elements));
    assert!(all_distinct(&colormaps));
}
