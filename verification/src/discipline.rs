//! Why the tokens keep the count of pops right.
//!
//! A program's dealings with the override stacks are followed here step by
//! step: every push issues a token, and every attempt to pop names the token it
//! is made with. Whatever the program does, the depth of each stack equals the
//! number of its tokens that are not yet spent. So a token that was never
//! popped accounts for exactly one entry still in force, and a token of this
//! program is never refused because its stack is empty.

use crate::engine::{ColorOverride, EngineCall, OverrideStacks, VarOverride};
use crate::style::{color_pop_outcome, stacks_after, var_pop_outcome};
use vstd::prelude::*;

verus! {

/// One step of a program on the override stacks. A token is named by its place
/// among the tokens of its kind, in the order in which they were issued.
pub enum Move {
    /// A color is pushed, which issues the next color token.
    PushColor(ColorOverride),
    /// An attempt is made to pop the color token with the given place.
    PopColor(int),
    /// A style variable is pushed, which issues the next style variable token.
    PushVar(VarOverride),
    /// An attempt is made to pop the style variable token with the given place.
    PopVar(int),
}

/// The stacks together with all tokens issued so far: for each token, in order
/// of issue, whether it is spent.
pub struct Session {
    pub stacks: OverrideStacks,
    pub color_tokens: Seq<bool>,
    pub var_tokens: Seq<bool>,
}

/// The number of tokens that are not spent.
pub open spec fn outstanding(tokens: Seq<bool>) -> nat
    decreases tokens.len(),
{
    if tokens.len() == 0 {
        0
    } else {
        outstanding(tokens.drop_last()) + if tokens.last() {
            0nat
        } else {
            1nat
        }
    }
}

impl Session {
    /// A fresh context: empty stacks, no tokens.
    pub open spec fn start() -> Session {
        Session {
            stacks: OverrideStacks::empty(),
            color_tokens: Seq::empty(),
            var_tokens: Seq::empty(),
        }
    }

    /// The session after one step. A push goes the way of the push
    /// operations, and an attempt to pop the way of `try_pop`. An attempt with
    /// a token that was never issued changes nothing.
    pub open spec fn step(self, m: Move) -> Session {
        match m {
            Move::PushColor(entry) => Session {
                stacks: self.stacks.apply(
                    EngineCall::PushStyleColor { element: entry.element, color: entry.color },
                ),
                color_tokens: self.color_tokens.push(false),
                var_tokens: self.var_tokens,
            },
            Move::PopColor(place) => if 0 <= place < self.color_tokens.len() {
                let outcome = color_pop_outcome(self.color_tokens[place], self.stacks);
                Session {
                    stacks: stacks_after(self.stacks, outcome),
                    color_tokens: self.color_tokens.update(
                        place,
                        self.color_tokens[place] || outcome is Ok,
                    ),
                    var_tokens: self.var_tokens,
                }
            } else {
                self
            },
            Move::PushVar(entry) => Session {
                stacks: self.stacks.apply(
                    crate::engine::var_push_call(entry.variable, entry.value),
                ),
                color_tokens: self.color_tokens,
                var_tokens: self.var_tokens.push(false),
            },
            Move::PopVar(place) => if 0 <= place < self.var_tokens.len() {
                let outcome = var_pop_outcome(self.var_tokens[place], self.stacks);
                Session {
                    stacks: stacks_after(self.stacks, outcome),
                    color_tokens: self.color_tokens,
                    var_tokens: self.var_tokens.update(
                        place,
                        self.var_tokens[place] || outcome is Ok,
                    ),
                }
            } else {
                self
            },
        }
    }

    /// The session after all of `moves`, first to last.
    pub open spec fn run(self, moves: Seq<Move>) -> Session
        decreases moves.len(),
    {
        if moves.len() == 0 {
            self
        } else {
            self.run(moves.drop_last()).step(moves.last())
        }
    }

    /// Each stack is as deep as its kind has tokens that are not spent.
    pub open spec fn balanced(self) -> bool {
        &&& self.stacks.colors.len() == outstanding(self.color_tokens)
        &&& self.stacks.vars.len() == outstanding(self.var_tokens)
    }
}

/// Issuing a token adds one to the tokens that are not spent.
proof fn lemma_issue_adds_one(tokens: Seq<bool>)
    ensures
        outstanding(tokens.push(false)) == outstanding(tokens) + 1,
{
    assert(tokens.push(false).drop_last() =~= tokens);
}

/// Marking a token takes one from the tokens that are not spent if it was not
/// spent and is now, and changes nothing if it is marked as it was.
proof fn lemma_spend_takes_one(tokens: Seq<bool>, place: int, spent: bool)
    requires
        0 <= place < tokens.len(),
        tokens[place] ==> spent,
    ensures
        outstanding(tokens.update(place, spent)) + (if spent && !tokens[place] {
            1nat
        } else {
            0nat
        }) == outstanding(tokens),
    decreases tokens.len(),
{
    let updated = tokens.update(place, spent);
    if place == tokens.len() - 1 {
        assert(updated.drop_last() =~= tokens.drop_last());
    } else {
        lemma_spend_takes_one(tokens.drop_last(), place, spent);
        assert(updated.drop_last() =~= tokens.drop_last().update(place, spent));
    }
}

/// One step keeps the stacks as deep as there are tokens that are not spent.
pub proof fn lemma_step_keeps_balance(session: Session, m: Move)
    requires
        session.balanced(),
    ensures
        session.step(m).balanced(),
{
    match m {
        Move::PushColor(_) => {
            lemma_issue_adds_one(session.color_tokens);
        },
        Move::PopColor(place) => {
            if 0 <= place < session.color_tokens.len() {
                let outcome = color_pop_outcome(session.color_tokens[place], session.stacks);
                lemma_spend_takes_one(
                    session.color_tokens,
                    place,
                    session.color_tokens[place] || outcome is Ok,
                );
            }
        },
        Move::PushVar(_) => {
            lemma_issue_adds_one(session.var_tokens);
        },
        Move::PopVar(place) => {
            if 0 <= place < session.var_tokens.len() {
                let outcome = var_pop_outcome(session.var_tokens[place], session.stacks);
                lemma_spend_takes_one(
                    session.var_tokens,
                    place,
                    session.var_tokens[place] || outcome is Ok,
                );
            }
        },
    }
}

/// Whatever a program does from a fresh context on, pushing and popping in any
/// order and attempting any pop any number of times: each stack is exactly as
/// deep as there are tokens of its kind that have not been popped.
pub proof fn lemma_depth_counts_outstanding_tokens(moves: Seq<Move>)
    ensures
        Session::start().run(moves).balanced(),
    decreases moves.len(),
{
    if moves.len() > 0 {
        lemma_depth_counts_outstanding_tokens(moves.drop_last());
        lemma_step_keeps_balance(Session::start().run(moves.drop_last()), moves.last());
    }
}

/// A token that is not spent stands for at least one entry on its stack.
proof fn lemma_unspent_token_counts(tokens: Seq<bool>, place: int)
    requires
        0 <= place < tokens.len(),
        !tokens[place],
    ensures
        outstanding(tokens) > 0,
    decreases tokens.len(),
{
    if place < tokens.len() - 1 {
        lemma_unspent_token_counts(tokens.drop_last(), place);
    }
}

/// After whatever a program has done from a fresh context on, an attempt to
/// pop one of its tokens is refused only if that token is spent, never because
/// its stack is empty.
pub proof fn lemma_own_token_finds_an_entry(moves: Seq<Move>, place: int)
    ensures
        ({
            let session = Session::start().run(moves);
            &&& 0 <= place < session.color_tokens.len() ==> (color_pop_outcome(
                session.color_tokens[place],
                session.stacks,
            ) is Ok <==> !session.color_tokens[place])
            &&& 0 <= place < session.var_tokens.len() ==> (var_pop_outcome(
                session.var_tokens[place],
                session.stacks,
            ) is Ok <==> !session.var_tokens[place])
        }),
{
    let session = Session::start().run(moves);
    lemma_depth_counts_outstanding_tokens(moves);
    if 0 <= place < session.color_tokens.len() && !session.color_tokens[place] {
        lemma_unspent_token_counts(session.color_tokens, place);
    }
    if 0 <= place < session.var_tokens.len() && !session.var_tokens[place] {
        lemma_unspent_token_counts(session.var_tokens, place);
    }
}

} // verus!
