use vstd::prelude::*;

verus! {

/// Life cycle of a streaming array reader.
#[derive(Debug, Clone, Copy, PartialEq, Eq, Structural)]
pub enum ReaderState {
    NotStarted,
    InArray,
    Exhausted,
    Failed,
}

/// Life cycle of a streaming array writer.
#[derive(Debug, Clone, Copy, PartialEq, Eq, Structural)]
pub enum WriterState {
    NotStarted,
    InArray,
    Finished,
    Failed,
}

/// What a pull request on a reader in state `s` is allowed to do.
#[derive(Debug, Clone, Copy, PartialEq, Eq, Structural)]
pub enum PullDecision {
    /// Read the next token of the array.
    Advance,
    /// The array is over: report end-of-sequence again.
    End,
    /// The call is illegal in this state.
    Reject,
}

pub open spec fn pull_decision_spec(s: ReaderState) -> PullDecision {
    match s {
        ReaderState::InArray => PullDecision::Advance,
        ReaderState::Exhausted => PullDecision::End,
        _ => PullDecision::Reject,
    }
}

/// The reader's transition table for `next`.
pub fn pull_decision(s: ReaderState) -> (d: PullDecision)
    ensures
        d == pull_decision_spec(s),
{
    match s {
        ReaderState::InArray => PullDecision::Advance,
        ReaderState::Exhausted => PullDecision::End,
        _ => PullDecision::Reject,
    }
}

/// Elements may only be pushed, and the array only closed, while in the array.
pub open spec fn writer_accepts_spec(s: WriterState) -> bool {
    s == WriterState::InArray
}

/// The writer's transition table for `put` and `finish`.
pub fn writer_accepts(s: WriterState) -> (b: bool)
    ensures
        b == writer_accepts_spec(s),
{
    match s {
        WriterState::InArray => true,
        _ => false,
    }
}

} // verus!
