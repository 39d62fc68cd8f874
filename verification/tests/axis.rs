use implot::{
    get_plot_mouse_position, is_plot_y_axis_hovered, set_plot_y_axis, y_axis_choice_option_to_i32,
    EngineCall, PlotUi, PointBits, YAxisChoice, IMPLOT_AUTO, NUMBER_OF_Y_AXES,
};

/// Stands in for the engine's notion of the active axis: it keeps the axis
/// that was selected last and resolves the "auto" code to it.
struct ActiveAxis {
    current: i32,
}

impl ActiveAxis {
    fn perform(&mut self, call: &EngineCall) -> Option<i32> {
        match call {
            EngineCall::SetPlotYAxis { y_axis } => {
                self.current = *y_axis;
                None
            }
            EngineCall::GetPlotMousePos { y_axis, .. }
            | EngineCall::IsPlotYAxisHovered { y_axis } => {
                Some(if *y_axis >= 0 { *y_axis } else { self.current })
            }
            _ => None,
        }
    }
}

#[test]
fn concrete_axes_have_their_fixed_codes() {
    assert_eq!(y_axis_choice_option_to_i32(Some(YAxisChoice::First)), 0);
    assert_eq!(y_axis_choice_option_to_i32(Some(YAxisChoice::Second)), 1);
    assert_eq!(y_axis_choice_option_to_i32(Some(YAxisChoice::Third)), 2);
    assert_eq!(YAxisChoice::First.code(), 0);
    assert_eq!(YAxisChoice::Second.code(), 1);
    assert_eq!(YAxisChoice::Third.code(), 2);
}

#[test]
fn no_choice_is_the_auto_code() {
    assert_eq!(IMPLOT_AUTO, -1);
    assert_eq!(y_axis_choice_option_to_i32(None), IMPLOT_AUTO);
    assert_eq!(y_axis_choice_option_to_i32(None), -1);
}

#[test]
fn axis_codes_are_pairwise_distinct() {
    let choices = [
        None,
        Some(YAxisChoice::First),
        Some(YAxisChoice::Second),
        Some(YAxisChoice::Third),
    ];
    for (i, a) in choices.iter().enumerate() {
        for (j, b) in choices.iter().enumerate() {
            let same_code = y_axis_choice_option_to_i32(*a) == y_axis_choice_option_to_i32(*b);
            assert_eq!(same_code, i == j);
        }
    }
}

#[test]
fn axis_codes_are_stable_across_calls() {
    for _ in 0..3 {
        assert_eq!(y_axis_choice_option_to_i32(Some(YAxisChoice::Third)), 2);
        assert_eq!(y_axis_choice_option_to_i32(None), -1);
    }
}

#[test]
fn concrete_codes_lie_below_the_number_of_axes() {
    assert_eq!(NUMBER_OF_Y_AXES, 3);
    for axis in [YAxisChoice::First, YAxisChoice::Second, YAxisChoice::Third] {
        let code = axis.code();
        assert!(code >= 0);
        assert!((code as usize) < NUMBER_OF_Y_AXES);
    }
    assert_eq!(y_axis_choice_option_to_i32(None) < 0, true);
}

#[test]
fn selecting_an_axis_names_it_by_its_code() {
    let ui = PlotUi::new();
    assert_eq!(
        set_plot_y_axis(&ui, YAxisChoice::First),
        EngineCall::SetPlotYAxis { y_axis: 0 }
    );
    assert_eq!(
        set_plot_y_axis(&ui, YAxisChoice::Second),
        EngineCall::SetPlotYAxis { y_axis: 1 }
    );
    assert_eq!(
        set_plot_y_axis(&ui, YAxisChoice::Third),
        EngineCall::SetPlotYAxis { y_axis: 2 }
    );
}

#[test]
fn mouse_position_without_an_axis_follows_the_selected_axis() {
    let ui = PlotUi::new();
    let mut engine = ActiveAxis { current: 0 };

    let select = set_plot_y_axis(&ui, YAxisChoice::Second);
    assert_eq!(select, EngineCall::SetPlotYAxis { y_axis: 1 });
    assert_eq!(engine.perform(&select), None);

    let query = get_plot_mouse_position(&ui, None);
    assert_eq!(
        query,
        EngineCall::GetPlotMousePos { out: PointBits { x: 0, y: 0 }, y_axis: -1 }
    );
    // The query carries the auto code, not the first axis' code, so the
    // engine resolves it to the axis selected just before.
    assert_ne!(query, get_plot_mouse_position(&ui, Some(YAxisChoice::First)));
    assert_eq!(engine.perform(&query), Some(1));
}

#[test]
fn a_named_axis_overrides_the_selected_axis() {
    let ui = PlotUi::new();
    let mut engine = ActiveAxis { current: 0 };
    engine.perform(&set_plot_y_axis(&ui, YAxisChoice::Second));
    let query = is_plot_y_axis_hovered(&ui, Some(YAxisChoice::Third));
    assert_eq!(query, EngineCall::IsPlotYAxisHovered { y_axis: 2 });
    assert_eq!(engine.perform(&query), Some(2));
    let auto = is_plot_y_axis_hovered(&ui, None);
    assert_eq!(auto, EngineCall::IsPlotYAxisHovered { y_axis: -1 });
    assert_eq!(engine.perform(&auto), Some(1));
}
