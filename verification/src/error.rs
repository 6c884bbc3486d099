//! The error taxonomy: every way a transition can be rejected.
//!
//! Each variant is terminal for the one transition that raised it; a rejected
//! transition leaves the record set exactly as it was.

use vstd::prelude::*;

verus! {

/// One rejection kind per violated precondition.
///
/// Input-shape errors (`TooManyOptions` through `InvalidSchedule`) arise only
/// while creating a poll, before any state is written. Temporal errors
/// (`PollNotStarted`, `PollEnded`, `PollClosed`, `PollStillActive`) arise when
/// a transition's timing precondition fails. `AlreadyVoted` and `Unauthorized`
/// are identity errors; `InvalidOption` and `VoteOverflow` are bounds errors.
#[derive(Clone, Copy, Debug, PartialEq, Eq, Structural)]
pub enum PollError {
    /// The poll is already closed.
    PollClosed,
    /// Voting has not started yet.
    PollNotStarted,
    /// Voting has already ended.
    PollEnded,
    /// This voter has already cast a vote.
    AlreadyVoted,
    /// The provided option index is invalid.
    InvalidOption,
    /// Too many options were supplied.
    TooManyOptions,
    /// At least two options are required.
    NotEnoughOptions,
    /// The poll title exceeds the allowed length.
    TitleTooLong,
    /// The poll description exceeds the allowed length.
    DescriptionTooLong,
    /// One of the option labels exceeds the allowed length.
    OptionLabelTooLong,
    /// The poll schedule is invalid.
    InvalidSchedule,
    /// The poll is still active.
    PollStillActive,
    /// The vote counter would overflow.
    VoteOverflow,
    /// The acting identity is not the poll's creator.
    Unauthorized,
}

impl PollError {
    /// The human-readable report for this rejection.
    pub open spec fn spec_message(self) -> Seq<char> {
        match self {
            PollError::PollClosed => "Poll is already closed."@,
            PollError::PollNotStarted => "Voting has not started yet."@,
            PollError::PollEnded => "Voting has already ended."@,
            PollError::AlreadyVoted => "This voter has already cast a vote."@,
            PollError::InvalidOption => "Provided option index is invalid."@,
            PollError::TooManyOptions => "Too many options supplied."@,
            PollError::NotEnoughOptions => "At least two options are required."@,
            PollError::TitleTooLong => "The poll title exceeds the allowed length."@,
            PollError::DescriptionTooLong => "The poll description exceeds the allowed length."@,
            PollError::OptionLabelTooLong => "One of the option labels exceeds the allowed length."@,
            PollError::InvalidSchedule => "The poll schedule is invalid."@,
            PollError::PollStillActive => "The poll is still active."@,
            PollError::VoteOverflow => "Vote counter overflow."@,
            PollError::Unauthorized => "Only the poll creator may close it."@,
        }
    }

    /// Reports this rejection in words.
    pub fn message(&self) -> (m: &'static str)
        ensures
            m@ == self.spec_message(),
    {
        match self {
            PollError::PollClosed => "Poll is already closed.",
            PollError::PollNotStarted => "Voting has not started yet.",
            PollError::PollEnded => "Voting has already ended.",
            PollError::AlreadyVoted => "This voter has already cast a vote.",
            PollError::InvalidOption => "Provided option index is invalid.",
            PollError::TooManyOptions => "Too many options supplied.",
            PollError::NotEnoughOptions => "At least two options are required.",
            PollError::TitleTooLong => "The poll title exceeds the allowed length.",
            PollError::DescriptionTooLong => "The poll description exceeds the allowed length.",
            PollError::OptionLabelTooLong => "One of the option labels exceeds the allowed length.",
            PollError::InvalidSchedule => "The poll schedule is invalid.",
            PollError::PollStillActive => "The poll is still active.",
            PollError::VoteOverflow => "Vote counter overflow.",
            PollError::Unauthorized => "Only the poll creator may close it.",
        }
    }
}

} // verus!
