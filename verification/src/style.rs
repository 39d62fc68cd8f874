//! The style override discipline: colors and style variables are pushed onto
//! the engine's stacks, and each push hands out a token that pops exactly one
//! entry, exactly once.
//!
//! The tokens guard the count of pops, not their order. Popping tokens in any
//! but the reverse order of their pushes is a mistake this layer does not see:
//! each pop removes whatever is newest on its stack.

use crate::elements::{Colormap, PlotColorElement, StyleVar, StyleVarKind};
use crate::engine::{var_push_call, EngineCall, OverrideStacks};
use crate::error::StyleStackError;
use crate::ui::PlotUi;
use crate::values::{ColorBits, StyleValue, Vec2Bits};
use vstd::prelude::*;

verus! {

/// The value a 32-bit two's complement integer takes when it is given the low
/// 32 bits of `n`.
pub open spec fn wrap_to_i32(n: int) -> int {
    let low = n % 0x1_0000_0000;
    if low < 0x8000_0000 {
        low
    } else {
        low - 0x1_0000_0000
    }
}

/// Switches to one of the built-in colormaps. With more than one sample the
/// engine resamples the map linearly to that many colors. Sample counts beyond
/// the engine's integer range wrap around.
pub fn set_colormap_from_preset(_ui: &PlotUi, preset: Colormap, samples: u32) -> (call: EngineCall)
    ensures
        call == (EngineCall::SetColormapPreset {
            preset: preset.native(),
            samples: wrap_to_i32(samples as int) as i32,
        }),
{
    let samples: i32 = if samples < 0x8000_0000 {
        samples as i32
    } else {
        (samples as i64 - 0x1_0000_0000) as i32
    };
    EngineCall::SetColormapPreset { preset: preset.code(), samples }
}

/// Sets a custom colormap from a list of colors. The engine is told the length
/// of the list, which wraps around beyond the engine's integer range.
pub fn set_colormap_from_vec(_ui: &PlotUi, colors: Vec<ColorBits>) -> (call: EngineCall)
    ensures
        call == (EngineCall::SetColormapCustom {
            colors,
            size: wrap_to_i32(colors@.len() as int) as i32,
        }),
{
    let low: u64 = (colors.len() as u64) % 0x1_0000_0000;
    let size: i32 = if low < 0x8000_0000 {
        low as i32
    } else {
        (low as i64 - 0x1_0000_0000) as i32
    };
    EngineCall::SetColormapCustom { colors, size }
}

/// Tracks one entry pushed onto the engine's color override stack.
pub struct StyleColorToken {
    /// Whether this token has been popped or not.
    was_popped: bool,
}

/// Tracks one entry pushed onto the engine's style variable override stack.
pub struct StyleVarToken {
    /// Whether this token has been popped or not.
    was_popped: bool,
}

/// What becomes of an attempt to pop a color token: refused if the token is
/// spent or there is nothing to pop, and otherwise the call that pops one
/// entry.
pub open spec fn color_pop_outcome(spent: bool, stacks: OverrideStacks) -> Result<
    EngineCall,
    StyleStackError,
> {
    if spent {
        Err(StyleStackError::ColorTokenPoppedTwice)
    } else if stacks.colors.len() == 0 {
        Err(StyleStackError::ColorStackEmpty)
    } else {
        Ok(EngineCall::PopStyleColor { count: 1 })
    }
}

/// What becomes of an attempt to pop a style variable token: refused if the
/// token is spent or there is nothing to pop, and otherwise the call that pops
/// one entry.
pub open spec fn var_pop_outcome(spent: bool, stacks: OverrideStacks) -> Result<
    EngineCall,
    StyleStackError,
> {
    if spent {
        Err(StyleStackError::VarTokenPoppedTwice)
    } else if stacks.vars.len() == 0 {
        Err(StyleStackError::VarStackEmpty)
    } else {
        Ok(EngineCall::PopStyleVar { count: 1 })
    }
}

/// The stacks after an attempt to pop: changed by the call if one is issued,
/// and untouched if the attempt is refused.
pub open spec fn stacks_after(stacks: OverrideStacks, outcome: Result<EngineCall, StyleStackError>)
    -> OverrideStacks {
    match outcome {
        Ok(call) => stacks.apply(call),
        Err(_) => stacks,
    }
}

/// Pushes a style color onto the stack, giving an element and the four
/// components of the color as single-precision encodings. The components
/// should lie between no intensity and full intensity; the engine takes them
/// as they are. The token that is returned removes the color from the stack
/// again.
pub fn push_style_color(
    ui: &mut PlotUi,
    element: &PlotColorElement,
    red: u32,
    green: u32,
    blue: u32,
    alpha: u32,
) -> (pushed: (StyleColorToken, EngineCall))
    ensures
        !pushed.0.is_spent(),
        pushed.1 == (EngineCall::PushStyleColor {
            element: element.native(),
            color: ColorBits { red, green, blue, alpha },
        }),
        final(ui)@ == old(ui)@.apply(pushed.1),
        final(ui)@.colors.len() == old(ui)@.colors.len() + 1,
{
    let call = EngineCall::PushStyleColor {
        element: element.code(),
        color: ColorBits { red, green, blue, alpha },
    };
    ui.record(&call);
    (StyleColorToken { was_popped: false }, call)
}

impl StyleColorToken {
    /// Whether the token has been popped.
    pub closed spec fn is_spent(&self) -> bool {
        self.was_popped
    }

    /// Whether the token has been popped.
    pub fn was_popped(&self) -> (spent: bool)
        ensures
            spent == self.is_spent(),
    {
        self.was_popped
    }

    /// Pops this token: one entry leaves the color stack, and the token is
    /// gone. A token that has been popped must not be popped again, and there
    /// must be an entry to pop.
    pub fn pop(self, ui: &mut PlotUi) -> (call: EngineCall)
        requires
            !self.is_spent(),
            old(ui)@.colors.len() > 0,
        ensures
            call == (EngineCall::PopStyleColor { count: 1 }),
            final(ui)@ == old(ui)@.apply(call),
            final(ui)@.colors == old(ui)@.colors.drop_last(),
    {
        let call = EngineCall::PopStyleColor { count: 1 };
        ui.record(&call);
        call
    }

    /// Pops this token if that is in order, and says why not otherwise. The
    /// token stays with the caller, spent once the pop has been issued. A
    /// refusal issues no call and changes nothing.
    pub fn try_pop(&mut self, ui: &mut PlotUi) -> (outcome: Result<EngineCall, StyleStackError>)
        ensures
            outcome == color_pop_outcome(old(self).is_spent(), old(ui)@),
            final(self).is_spent() == (old(self).is_spent() || outcome is Ok),
            final(ui)@ == stacks_after(old(ui)@, outcome),
    {
        if self.was_popped {
            Err(StyleStackError::ColorTokenPoppedTwice)
        } else if ui.color_depth() == 0 {
            Err(StyleStackError::ColorStackEmpty)
        } else {
            self.was_popped = true;
            let call = EngineCall::PopStyleColor { count: 1 };
            ui.record(&call);
            Ok(call)
        }
    }
}

/// Pushes a single-precision style variable onto the stack, the value given as
/// its encoding. The token that is returned removes the variable from the
/// stack again. Whether `element` holds a value of this shape is not looked
/// at here; the call is well shaped only if it does. See [`push_style_var`].
pub fn push_style_var_f32(ui: &mut PlotUi, element: &StyleVar, value: u32) -> (pushed: (
    StyleVarToken,
    EngineCall,
))
    ensures
        !pushed.0.is_spent(),
        pushed.1 == var_push_call(element.native(), StyleValue::Float(value)),
        pushed.1.well_shaped() <==> element.shape() == StyleVarKind::Float,
        final(ui)@ == old(ui)@.apply(pushed.1),
        final(ui)@.vars.len() == old(ui)@.vars.len() + 1,
{
    let call = EngineCall::PushStyleVarFloat { variable: element.code(), value };
    ui.record(&call);
    (StyleVarToken { was_popped: false }, call)
}

/// Pushes an integer style variable onto the stack. The only integer variable
/// is the marker, whose values are the codes of [`crate::elements::Marker`].
/// The token that is returned removes the variable from the stack again.
/// Whether `element` holds a value of this shape is not looked at here; the
/// call is well shaped only if it does. See [`push_style_var`].
pub fn push_style_var_i32(ui: &mut PlotUi, element: &StyleVar, value: i32) -> (pushed: (
    StyleVarToken,
    EngineCall,
))
    ensures
        !pushed.0.is_spent(),
        pushed.1 == var_push_call(element.native(), StyleValue::Int(value)),
        pushed.1.well_shaped() <==> element.shape() == StyleVarKind::Int,
        final(ui)@ == old(ui)@.apply(pushed.1),
        final(ui)@.vars.len() == old(ui)@.vars.len() + 1,
{
    let call = EngineCall::PushStyleVarInt { variable: element.code(), value };
    ui.record(&call);
    (StyleVarToken { was_popped: false }, call)
}

/// Pushes a two-component style variable onto the stack. The token that is
/// returned removes the variable from the stack again. Whether `element` holds
/// a value of this shape is not looked at here; the call is well shaped only
/// if it does. See [`push_style_var`].
pub fn push_style_var_imvec2(ui: &mut PlotUi, element: &StyleVar, value: Vec2Bits) -> (pushed: (
    StyleVarToken,
    EngineCall,
))
    ensures
        !pushed.0.is_spent(),
        pushed.1 == var_push_call(element.native(), StyleValue::Vec2(value)),
        pushed.1.well_shaped() <==> element.shape() == StyleVarKind::Vec2,
        final(ui)@ == old(ui)@.apply(pushed.1),
        final(ui)@.vars.len() == old(ui)@.vars.len() + 1,
{
    let call = EngineCall::PushStyleVarVec2 { variable: element.code(), value };
    ui.record(&call);
    (StyleVarToken { was_popped: false }, call)
}

/// Pushes a style variable onto the stack after checking that the value has
/// the shape the variable holds. A value of another shape is refused: no call
/// is issued and nothing changes.
pub fn push_style_var(ui: &mut PlotUi, element: &StyleVar, value: StyleValue) -> (pushed: Result<
    (StyleVarToken, EngineCall),
    StyleStackError,
>)
    ensures
        pushed is Ok <==> element.shape() == value.shape(),
        pushed matches Ok(pair) ==> {
            &&& !pair.0.is_spent()
            &&& pair.1 == var_push_call(element.native(), value)
            &&& pair.1.well_shaped()
            &&& final(ui)@ == old(ui)@.apply(pair.1)
        },
        pushed matches Err(error) ==> {
            &&& error == (StyleStackError::ShapeMismatch {
                variable: *element,
                expected: element.shape(),
                supplied: value.shape(),
            })
            &&& final(ui)@ == old(ui)@
        },
{
    let expected = element.kind();
    let supplied = value.kind();
    if expected == supplied {
        match value {
            StyleValue::Float(bits) => Ok(push_style_var_f32(ui, element, bits)),
            StyleValue::Int(number) => Ok(push_style_var_i32(ui, element, number)),
            StyleValue::Vec2(pair) => Ok(push_style_var_imvec2(ui, element, pair)),
        }
    } else {
        Err(StyleStackError::ShapeMismatch { variable: *element, expected, supplied })
    }
}

impl StyleVarToken {
    /// Whether the token has been popped.
    pub closed spec fn is_spent(&self) -> bool {
        self.was_popped
    }

    /// Whether the token has been popped.
    pub fn was_popped(&self) -> (spent: bool)
        ensures
            spent == self.is_spent(),
    {
        self.was_popped
    }

    /// Pops this token: one entry leaves the style variable stack, and the
    /// token is gone. A token that has been popped must not be popped again,
    /// and there must be an entry to pop.
    pub fn pop(self, ui: &mut PlotUi) -> (call: EngineCall)
        requires
            !self.is_spent(),
            old(ui)@.vars.len() > 0,
        ensures
            call == (EngineCall::PopStyleVar { count: 1 }),
            final(ui)@ == old(ui)@.apply(call),
            final(ui)@.vars == old(ui)@.vars.drop_last(),
    {
        let call = EngineCall::PopStyleVar { count: 1 };
        ui.record(&call);
        call
    }

    /// Pops this token if that is in order, and says why not otherwise. The
    /// token stays with the caller, spent once the pop has been issued. A
    /// refusal issues no call and changes nothing.
    pub fn try_pop(&mut self, ui: &mut PlotUi) -> (outcome: Result<EngineCall, StyleStackError>)
        ensures
            outcome == var_pop_outcome(old(self).is_spent(), old(ui)@),
            final(self).is_spent() == (old(self).is_spent() || outcome is Ok),
            final(ui)@ == stacks_after(old(ui)@, outcome),
    {
        if self.was_popped {
            Err(StyleStackError::VarTokenPoppedTwice)
        } else if ui.var_depth() == 0 {
            Err(StyleStackError::VarStackEmpty)
        } else {
            self.was_popped = true;
            let call = EngineCall::PopStyleVar { count: 1 };
            ui.record(&call);
            Ok(call)
        }
    }
}

/// A token pops at most once, on either stack: once an attempt to pop it has
/// issued its call the token is spent, and every later attempt on it is
/// refused, whatever the stacks hold by then, without a call and without a
/// change to the stacks.
///
/// Here `spent` is the state of the token before the first attempt, `first`
/// the stacks at that attempt and `later` the stacks at any attempt after it.
pub proof fn lemma_second_pop_is_refused(
    spent: bool,
    first: OverrideStacks,
    later: OverrideStacks,
)
    ensures
        color_pop_outcome(spent, first) is Ok ==> {
            let spent_after = spent || color_pop_outcome(spent, first) is Ok;
            &&& color_pop_outcome(spent_after, later) == Err::<EngineCall, StyleStackError>(
                StyleStackError::ColorTokenPoppedTwice,
            )
            &&& stacks_after(later, color_pop_outcome(spent_after, later)) == later
        },
        var_pop_outcome(spent, first) is Ok ==> {
            let spent_after = spent || var_pop_outcome(spent, first) is Ok;
            &&& var_pop_outcome(spent_after, later) == Err::<EngineCall, StyleStackError>(
                StyleStackError::VarTokenPoppedTwice,
            )
            &&& stacks_after(later, var_pop_outcome(spent_after, later)) == later
        },
{
}

/// An attempt to pop a token that is not spent succeeds exactly if its stack
/// holds an entry, and then removes the newest entry of that stack and nothing
/// else. Which push the token came from plays no part.
pub proof fn lemma_pop_takes_the_newest(stacks: OverrideStacks)
    ensures
        color_pop_outcome(false, stacks) is Ok <==> stacks.colors.len() > 0,
        var_pop_outcome(false, stacks) is Ok <==> stacks.vars.len() > 0,
        stacks.colors.len() > 0 ==> stacks_after(stacks, color_pop_outcome(false, stacks))
            == (OverrideStacks { colors: stacks.colors.drop_last(), vars: stacks.vars }),
        stacks.vars.len() > 0 ==> stacks_after(stacks, var_pop_outcome(false, stacks))
            == (OverrideStacks { colors: stacks.colors, vars: stacks.vars.drop_last() }),
{
    if stacks.colors.len() > 0 {
        assert(stacks_after(stacks, color_pop_outcome(false, stacks)).colors
            =~= stacks.colors.drop_last());
    }
    if stacks.vars.len() > 0 {
        assert(stacks_after(stacks, var_pop_outcome(false, stacks)).vars
            =~= stacks.vars.drop_last());
    }
}

} // verus!
