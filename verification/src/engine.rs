//! The calls this crate makes the engine perform, and what they do to the
//! engine's two override stacks.

use crate::elements::{style_var_shape, StyleVarKind};
use crate::values::{ColorBits, LimitsBits, PointBits, StyleValue, Vec2Bits};
use vstd::prelude::*;

verus! {

/// One call into the engine, with every argument in its native encoding. The
/// variants follow the engine's C interface one for one. A query carries the
/// zeroed buffer that the engine writes its answer into, so that an engine
/// with nothing to report leaves zeros behind.
#[allow(inconsistent_fields)]
#[derive(Debug, PartialEq, Eq)]
pub enum EngineCall {
    /// `SetColormap(preset, samples)`.
    SetColormapPreset { preset: i32, samples: i32 },
    /// `SetColormap(colors, size)`.
    SetColormapCustom { colors: Vec<ColorBits>, size: i32 },
    /// `PushStyleColor(idx, col)`.
    PushStyleColor { element: i32, color: ColorBits },
    /// `PopStyleColor(count)`.
    PopStyleColor { count: i32 },
    /// `PushStyleVar(idx, float)`.
    PushStyleVarFloat { variable: i32, value: u32 },
    /// `PushStyleVar(idx, int)`.
    PushStyleVarInt { variable: i32, value: i32 },
    /// `PushStyleVar(idx, ImVec2)`.
    PushStyleVarVec2 { variable: i32, value: Vec2Bits },
    /// `PopStyleVar(count)`.
    PopStyleVar { count: i32 },
    /// `IsPlotHovered()`.
    IsPlotHovered,
    /// `IsPlotQueried()`.
    IsPlotQueried,
    /// `GetPlotMousePos(y_axis)`.
    GetPlotMousePos { out: PointBits, y_axis: i32 },
    /// `PixelsToPlot(pix, y_axis)`.
    PixelsToPlotVec2 { out: PointBits, pixel: Vec2Bits, y_axis: i32 },
    /// `PixelsToPlot(x, y, y_axis)`.
    PixelsToPlotFloat { out: PointBits, x: u32, y: u32, y_axis: i32 },
    /// `PlotToPixels(plt, y_axis)`.
    PlotToPixelsPoint { out: Vec2Bits, point: PointBits, y_axis: i32 },
    /// `PlotToPixels(x, y, y_axis)`.
    PlotToPixelsDouble { out: Vec2Bits, x: u64, y: u64, y_axis: i32 },
    /// `GetPlotLimits(y_axis)`.
    GetPlotLimits { out: LimitsBits, y_axis: i32 },
    /// `GetPlotQuery(y_axis)`.
    GetPlotQuery { out: LimitsBits, y_axis: i32 },
    /// `SetPlotYAxis(y_axis)`.
    SetPlotYAxis { y_axis: i32 },
    /// `IsPlotXAxisHovered()`.
    IsPlotXAxisHovered,
    /// `IsPlotYAxisHovered(y_axis)`.
    IsPlotYAxisHovered { y_axis: i32 },
    /// `ShowDemoWindow(p_open)`.
    ShowDemoWindow { open: bool },
}

/// One entry of the engine's color override stack: which element was
/// recolored, by its native code, and with what.
#[derive(Clone, Copy, Debug, PartialEq, Eq)]
pub struct ColorOverride {
    pub element: i32,
    pub color: ColorBits,
}

/// One entry of the engine's style variable override stack: which variable was
/// set, by its native code, and to what.
#[derive(Clone, Copy, Debug, PartialEq, Eq)]
pub struct VarOverride {
    pub variable: i32,
    pub value: StyleValue,
}

/// The engine's two override stacks, oldest entry first. The stacks are
/// independent: a call on one leaves the other alone.
pub struct OverrideStacks {
    pub colors: Seq<ColorOverride>,
    pub vars: Seq<VarOverride>,
}

/// A stack with its `count` newest entries removed. A `count` below one removes
/// nothing. A `count` beyond the stack's depth is outside the engine's
/// contract; here it empties the stack.
pub open spec fn without_newest<T>(stack: Seq<T>, count: int) -> Seq<T> {
    if count <= 0 {
        stack
    } else if count >= stack.len() {
        Seq::empty()
    } else {
        stack.take(stack.len() - count)
    }
}

impl OverrideStacks {
    /// Both stacks empty, as they are in a fresh engine context.
    pub open spec fn empty() -> OverrideStacks {
        OverrideStacks { colors: Seq::empty(), vars: Seq::empty() }
    }

    /// The stacks after the engine has performed `call`. A push adds one entry
    /// on top of its stack, a pop removes the newest entries of its stack, and
    /// every other call leaves both stacks as they are.
    pub open spec fn apply(self, call: EngineCall) -> OverrideStacks {
        match call {
            EngineCall::PushStyleColor { element, color } => OverrideStacks {
                colors: self.colors.push(ColorOverride { element, color }),
                vars: self.vars,
            },
            EngineCall::PopStyleColor { count } => OverrideStacks {
                colors: without_newest(self.colors, count as int),
                vars: self.vars,
            },
            EngineCall::PushStyleVarFloat { variable, value } => OverrideStacks {
                colors: self.colors,
                vars: self.vars.push(VarOverride { variable, value: StyleValue::Float(value) }),
            },
            EngineCall::PushStyleVarInt { variable, value } => OverrideStacks {
                colors: self.colors,
                vars: self.vars.push(VarOverride { variable, value: StyleValue::Int(value) }),
            },
            EngineCall::PushStyleVarVec2 { variable, value } => OverrideStacks {
                colors: self.colors,
                vars: self.vars.push(VarOverride { variable, value: StyleValue::Vec2(value) }),
            },
            EngineCall::PopStyleVar { count } => OverrideStacks {
                colors: self.colors,
                vars: without_newest(self.vars, count as int),
            },
            _ => self,
        }
    }
}

/// The call that pushes `value` for the style variable with code `variable`:
/// the engine has one entry point for each shape of value.
pub open spec fn var_push_call(variable: i32, value: StyleValue) -> EngineCall {
    match value {
        StyleValue::Float(bits) => EngineCall::PushStyleVarFloat { variable, value: bits },
        StyleValue::Int(number) => EngineCall::PushStyleVarInt { variable, value: number },
        StyleValue::Vec2(pair) => EngineCall::PushStyleVarVec2 { variable, value: pair },
    }
}

impl EngineCall {
    /// Whether the call puts an entry onto one of the override stacks.
    pub open spec fn is_push(self) -> bool {
        self is PushStyleColor || self is PushStyleVarFloat || self is PushStyleVarInt
            || self is PushStyleVarVec2
    }

    /// Whether the call touches one of the override stacks.
    pub open spec fn moves_a_stack(self) -> bool {
        self.is_push() || self is PopStyleColor || self is PopStyleVar
    }

    /// Whether the call touches the style variable stack.
    pub open spec fn moves_var_stack(self) -> bool {
        self.moves_a_stack() && !(self is PushStyleColor) && !(self is PopStyleColor)
    }

    /// Whether the call only asks the engine about the state of a plot.
    pub open spec fn is_query(self) -> bool {
        self is IsPlotHovered || self is IsPlotQueried || self is GetPlotMousePos
            || self is PixelsToPlotVec2 || self is PixelsToPlotFloat || self is PlotToPixelsPoint
            || self is PlotToPixelsDouble || self is GetPlotLimits || self is GetPlotQuery
            || self is IsPlotXAxisHovered || self is IsPlotYAxisHovered
    }

    /// Whether the call gives a style variable a value of the shape that the
    /// variable holds. Only a push of a style variable can fail to. What the
    /// engine makes of a call that is not well shaped is not defined.
    pub open spec fn well_shaped(self) -> bool {
        match self {
            EngineCall::PushStyleVarFloat { variable, .. } => style_var_shape(variable)
                == StyleVarKind::Float,
            EngineCall::PushStyleVarInt { variable, .. } => style_var_shape(variable)
                == StyleVarKind::Int,
            EngineCall::PushStyleVarVec2 { variable, .. } => style_var_shape(variable)
                == StyleVarKind::Vec2,
            _ => true,
        }
    }

    /// For a push, the call that takes its entry off again: a pop of one entry
    /// from the same stack.
    pub open spec fn matching_pop(self) -> EngineCall {
        if self is PushStyleColor {
            EngineCall::PopStyleColor { count: 1 }
        } else {
            EngineCall::PopStyleVar { count: 1 }
        }
    }
}

/// The code of the engine's active Y axis after it has performed `call`, where
/// `active` was the code before. Selecting an axis makes it the active one, for
/// the rest of the plot it is selected in, and no other call of this crate
/// changes it.
pub open spec fn active_axis_after(active: i32, call: EngineCall) -> i32 {
    match call {
        EngineCall::SetPlotYAxis { y_axis } => y_axis,
        _ => active,
    }
}

/// The code of the axis the engine works on when it is handed `y_axis` while
/// `active` is the code of its active axis: a code below zero stands for the
/// active axis, any other code for itself.
pub open spec fn resolved_axis(y_axis: i32, active: i32) -> i32 {
    if y_axis >= 0 {
        y_axis
    } else {
        active
    }
}

/// A push puts exactly one entry onto its stack, and the pop that matches it
/// takes exactly that entry off: the two together leave both stacks as they
/// were.
pub proof fn lemma_push_then_pop_restores(stacks: OverrideStacks, push: EngineCall)
    requires
        push.is_push(),
    ensures
        push is PushStyleColor ==> stacks.apply(push).colors.len() == stacks.colors.len() + 1,
        !(push is PushStyleColor) ==> stacks.apply(push).vars.len() == stacks.vars.len() + 1,
        stacks.apply(push).apply(push.matching_pop()) == stacks,
{
    let pushed = stacks.apply(push);
    let popped = pushed.apply(push.matching_pop());
    assert(popped.colors =~= stacks.colors && popped.vars =~= stacks.vars);
}

/// Two pushes followed by their pops, newest first, leave both stacks as they
/// were, and after the first of the two pops the stacks are as they were after
/// the first push alone.
///
/// Where both pushes went to the same stack their pops are one and the same
/// call. The order in which two tokens are popped therefore makes no
/// difference to the engine: the first pop always removes the newer entry. If
/// it was the older token that was popped first, the older override is still in
/// force while it is the newer token that is still to be popped.
pub proof fn lemma_nested_pushes_unwind(
    stacks: OverrideStacks,
    first: EngineCall,
    second: EngineCall,
)
    requires
        first.is_push(),
        second.is_push(),
    ensures
        stacks.apply(first).apply(second).apply(second.matching_pop()) == stacks.apply(first),
        stacks.apply(first).apply(second).apply(second.matching_pop()).apply(first.matching_pop())
            == stacks,
        first.moves_var_stack() == second.moves_var_stack() ==> first.matching_pop()
            == second.matching_pop(),
{
    lemma_push_then_pop_restores(stacks.apply(first), second);
    lemma_push_then_pop_restores(stacks, first);
}

/// The two stacks are independent, and only pushes and pops move them: a call
/// on the color stack leaves the style variable stack alone, a call on the
/// style variable stack leaves the color stack alone, and any other call, every
/// query among them, leaves both as they are.
pub proof fn lemma_stacks_are_independent(stacks: OverrideStacks, call: EngineCall)
    ensures
        !call.moves_var_stack() ==> stacks.apply(call).vars == stacks.vars,
        call.moves_var_stack() || !call.moves_a_stack() ==> stacks.apply(call).colors
            == stacks.colors,
        !call.moves_a_stack() ==> stacks.apply(call) == stacks,
{
}

/// A query changes nothing it could later be asked about by this crate: it
/// leaves the override stacks and the active axis as they are. A query that is
/// repeated therefore meets the engine as the one before left it, whether or
/// not a plot has been drawn.
pub proof fn lemma_queries_change_nothing(stacks: OverrideStacks, active: i32, query: EngineCall)
    requires
        query.is_query(),
    ensures
        stacks.apply(query) == stacks,
        active_axis_after(active, query) == active,
{
}

/// Popping several entries at once is the same as popping them one by one.
pub proof fn lemma_pops_add_up<T>(stack: Seq<T>, count: int)
    requires
        0 <= count,
    ensures
        without_newest(without_newest(stack, 1), count) == without_newest(stack, count + 1),
{
}

/// However many entries are pushed, popping as many restores the stack.
pub proof fn lemma_balanced_pops_restore<T>(stack: Seq<T>, pushed: Seq<T>)
    ensures
        without_newest(stack + pushed, pushed.len() as int) == stack,
{
}

} // verus!
