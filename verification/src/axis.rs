//! Selection of a Y axis and its native encoding.

use vstd::prelude::*;

verus! {

/// The code the engine reads as "whichever Y axis is currently active". It has
/// to stay identical to the engine's own `IMPLOT_AUTO`.
pub const IMPLOT_AUTO: i32 = -1;

/// Number of Y axes a plot has. Every concrete axis code lies below it.
pub const NUMBER_OF_Y_AXES: usize = 3;

/// Choice of Y axis. An enum rather than an integer, so that an axis that does
/// not exist cannot be selected and no operation has to reject one.
#[derive(Clone, Copy, Debug, PartialEq, Eq, Structural)]
pub enum YAxisChoice {
    First,
    Second,
    Third,
}

impl YAxisChoice {
    /// The engine's code for this axis.
    pub open spec fn native(self) -> i32 {
        match self {
            YAxisChoice::First => 0,
            YAxisChoice::Second => 1,
            YAxisChoice::Third => 2,
        }
    }

    /// The engine's code for this axis, which is also its index into per-axis
    /// tables.
    pub fn code(&self) -> (code: i32)
        ensures
            code == self.native(),
            0 <= code < NUMBER_OF_Y_AXES,
    {
        match self {
            YAxisChoice::First => 0,
            YAxisChoice::Second => 1,
            YAxisChoice::Third => 2,
        }
    }
}

/// The code handed to the engine for an optional axis choice: the axis' own
/// code, or [`IMPLOT_AUTO`] where none is chosen.
pub open spec fn axis_code(choice: Option<YAxisChoice>) -> i32 {
    match choice {
        Some(axis) => axis.native(),
        None => IMPLOT_AUTO,
    }
}

/// Turns an optional axis choice into the engine's code. `None` becomes
/// [`IMPLOT_AUTO`], which the engine resolves to the axis that is active at
/// the time of the call.
pub fn y_axis_choice_option_to_i32(y_axis_choice: Option<YAxisChoice>) -> (code: i32)
    ensures
        code == axis_code(y_axis_choice),
{
    match y_axis_choice {
        Some(choice) => choice.code(),
        None => IMPLOT_AUTO,
    }
}

/// The encoding of axis choices loses nothing: two choices with the same code
/// are the same choice. Concrete axes get the codes `0`, `1` and `2`, all below
/// [`NUMBER_OF_Y_AXES`], and only the absent choice gets [`IMPLOT_AUTO`].
pub proof fn lemma_axis_code_injective(a: Option<YAxisChoice>, b: Option<YAxisChoice>)
    ensures
        axis_code(a) == axis_code(b) <==> a == b,
        a is Some ==> 0 <= axis_code(a) < NUMBER_OF_Y_AXES,
        a is None <==> axis_code(a) == IMPLOT_AUTO,
        IMPLOT_AUTO < 0,
{
}

} // verus!
