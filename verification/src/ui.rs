//! The handle every operation takes.

use crate::engine::{ColorOverride, EngineCall, OverrideStacks, VarOverride};
use crate::values::StyleValue;
use vstd::prelude::*;

verus! {

/// The handle for plotting within a live engine context. It is handed out by
/// whoever owns the context and passed to every operation, so that none can be
/// reached without one. It cannot be copied.
///
/// The handle keeps a ledger of the engine's two override stacks: what has been
/// pushed through it and not yet popped. Its view is that pair of stacks.
pub struct PlotUi {
    colors: Vec<ColorOverride>,
    vars: Vec<VarOverride>,
}

impl View for PlotUi {
    type V = OverrideStacks;

    closed spec fn view(&self) -> OverrideStacks {
        OverrideStacks { colors: self.colors@, vars: self.vars@ }
    }
}

/// Drops the `count` newest entries of a stack, as the engine does on a pop.
fn drop_newest<T>(stack: &mut Vec<T>, count: i32)
    ensures
        final(stack)@ == crate::engine::without_newest(old(stack)@, count as int),
{
    if count > 0 {
        let depth: usize = stack.len();
        let count: usize = count as usize;
        if count >= depth {
            stack.truncate(0);
        } else {
            stack.truncate(depth - count);
        }
    }
}

impl PlotUi {
    /// A handle for a context whose override stacks are empty.
    pub fn new() -> (ui: PlotUi)
        ensures
            ui@ == OverrideStacks::empty(),
    {
        PlotUi { colors: Vec::new(), vars: Vec::new() }
    }

    /// Number of color overrides in force.
    pub fn color_depth(&self) -> (depth: usize)
        ensures
            depth == self@.colors.len(),
    {
        self.colors.len()
    }

    /// Number of style variable overrides in force.
    pub fn var_depth(&self) -> (depth: usize)
        ensures
            depth == self@.vars.len(),
    {
        self.vars.len()
    }

    /// The color override at `index`, counted from the oldest, if there is one.
    pub fn color_override(&self, index: usize) -> (entry: Option<ColorOverride>)
        ensures
            index < self@.colors.len() ==> entry == Some(self@.colors[index as int]),
            index >= self@.colors.len() ==> entry is None,
    {
        if index < self.colors.len() {
            Some(self.colors[index])
        } else {
            None
        }
    }

    /// The style variable override at `index`, counted from the oldest, if
    /// there is one.
    pub fn var_override(&self, index: usize) -> (entry: Option<VarOverride>)
        ensures
            index < self@.vars.len() ==> entry == Some(self@.vars[index as int]),
            index >= self@.vars.len() ==> entry is None,
    {
        if index < self.vars.len() {
            Some(self.vars[index])
        } else {
            None
        }
    }

    /// Enters `call` into the ledger: afterwards the ledger holds what the
    /// engine's stacks hold once the engine has performed the call.
    pub(crate) fn record(&mut self, call: &EngineCall)
        ensures
            final(self)@ == old(self)@.apply(*call),
    {
        match call {
            EngineCall::PushStyleColor { element, color } => {
                self.colors.push(ColorOverride { element: *element, color: *color });
            },
            EngineCall::PopStyleColor { count } => {
                drop_newest(&mut self.colors, *count);
            },
            EngineCall::PushStyleVarFloat { variable, value } => {
                let value = StyleValue::Float(*value);
                self.vars.push(VarOverride { variable: *variable, value });
            },
            EngineCall::PushStyleVarInt { variable, value } => {
                let value = StyleValue::Int(*value);
                self.vars.push(VarOverride { variable: *variable, value });
            },
            EngineCall::PushStyleVarVec2 { variable, value } => {
                let value = StyleValue::Vec2(*value);
                self.vars.push(VarOverride { variable: *variable, value });
            },
            EngineCall::PopStyleVar { count } => {
                drop_newest(&mut self.vars, *count);
            },
            _ => {},
        }
    }
}

} // verus!
