//! The shape of an exchange with the driver.
//!
//! Where a decision depends on what the driver answers, the operation is a
//! conversation: a value that says which calls to issue next and, handed the
//! answer to the last of them, moves on.

use crate::gl_call::{GlCall, GlCallView};
use vstd::prelude::*;

verus! {

/// One move of a conversation whose state is `S` and whose result is `T`.
#[derive(Debug)]
pub enum Step<S, T> {
    /// Issue `calls` in order, then resume `next` with the answer to the last one.
    Call { next: S, calls: Vec<GlCall> },
    /// The conversation is over: issue `calls` in order; `result` is what it came to.
    Done { calls: Vec<GlCall>, result: T },
    /// The answer does not fit the call that was waiting for one. Nothing is
    /// to be issued, and `state` is the conversation as it was.
    OutOfTurn { state: S },
}

/// A [`Step`] over the views of its parts.
pub enum StepView<S, T> {
    Call { next: S, calls: Seq<GlCallView> },
    Done { calls: Seq<GlCallView>, result: T },
    OutOfTurn { state: S },
}

impl<S, T> StepView<S, T> {
    /// The step, with `calls` to issue before its own.
    pub open spec fn preceded_by(self, calls: Seq<GlCallView>) -> StepView<S, T> {
        match self {
            StepView::Call { next, calls: own } => StepView::Call { next, calls: calls + own },
            StepView::Done { calls: own, result } => StepView::Done { calls: calls + own, result },
            StepView::OutOfTurn { state } => StepView::OutOfTurn { state },
        }
    }
}

} // verus!
