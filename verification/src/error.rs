//! Violations of the override stack discipline.

use crate::elements::{StyleVar, StyleVarKind};
use vstd::prelude::*;

verus! {

/// A violation of the override stack discipline. Each one is a mistake of the
/// program, not a condition to recover from: the engine cannot report or undo
/// a stack that has come apart, so the call that would cause it is never
/// issued and the embedding application is expected to stop.
#[derive(Clone, Copy, Debug, PartialEq, Eq)]
pub enum StyleStackError {
    /// A color token was to be popped after it had already been popped.
    ColorTokenPoppedTwice,
    /// A style variable token was to be popped after it had already been
    /// popped.
    VarTokenPoppedTwice,
    /// A color token was to be popped while no color override was in force.
    ColorStackEmpty,
    /// A style variable token was to be popped while no style variable
    /// override was in force.
    VarStackEmpty,
    /// A style variable was to be given a value of a shape it does not hold.
    ShapeMismatch { variable: StyleVar, expected: StyleVarKind, supplied: StyleVarKind },
}

impl StyleStackError {
    /// The text of [`StyleStackError::message`].
    pub open spec fn text(self) -> Seq<char> {
        match self {
            StyleStackError::ColorTokenPoppedTwice => {
                "Attempted to pop a style color token twice."@
            },
            StyleStackError::VarTokenPoppedTwice => {
                "Attempted to pop a style var token twice."@
            },
            StyleStackError::ColorStackEmpty => {
                "Attempted to pop a style color token from an empty stack."@
            },
            StyleStackError::VarStackEmpty => {
                "Attempted to pop a style var token from an empty stack."@
            },
            StyleStackError::ShapeMismatch { .. } => {
                "Attempted to push a style var with a value of the wrong shape."@
            },
        }
    }

    /// What to tell the programmer when stopping on this violation.
    pub fn message(&self) -> (message: String)
        ensures
            message@ == self.text(),
    {
        let text = match self {
            StyleStackError::ColorTokenPoppedTwice => {
                "Attempted to pop a style color token twice."
            },
            StyleStackError::VarTokenPoppedTwice => {
                "Attempted to pop a style var token twice."
            },
            StyleStackError::ColorStackEmpty => {
                "Attempted to pop a style color token from an empty stack."
            },
            StyleStackError::VarStackEmpty => {
                "Attempted to pop a style var token from an empty stack."
            },
            StyleStackError::ShapeMismatch { .. } => {
                "Attempted to push a style var with a value of the wrong shape."
            },
        };
        text.to_owned()
    }
}

} // verus!
