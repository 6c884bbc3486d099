//! Validation rules: pure, side-effect-free predicates, one per rejection
//! kind, and the outcome functions that fix which error (if any) each
//! transition reports.
//!
//! The outcome functions encode the exact order in which preconditions are
//! checked, so "the first failing check is the reported error" is part of
//! every transition's contract.

use vstd::prelude::*;

use crate::error::PollError;
use crate::state::byte_len;
use crate::state::CreatePollParams;
use crate::state::Identity;
use crate::state::Poll;
use crate::state::MAX_DESCRIPTION_LEN;
use crate::state::MAX_OPTIONS;
use crate::state::MAX_OPTION_LABEL_LEN;
use crate::state::MAX_TITLE_LEN;
use crate::state::MIN_OPTIONS;

verus! {

/// The encoded byte length of a text value, as the schemas measure it.
pub fn text_byte_len(s: &str) -> (n: usize)
    ensures
        n == byte_len(s@),
{
    s.as_bytes().len()
}

/// Whether a title fits its byte budget.
pub fn title_ok(title: &str) -> (r: bool)
    ensures
        r == (byte_len(title@) <= MAX_TITLE_LEN),
{
    text_byte_len(title) <= MAX_TITLE_LEN
}

/// Whether a description fits its byte budget.
pub fn description_ok(description: &str) -> (r: bool)
    ensures
        r == (byte_len(description@) <= MAX_DESCRIPTION_LEN),
{
    text_byte_len(description) <= MAX_DESCRIPTION_LEN
}

/// Whether an option label fits its byte budget.
pub fn label_ok(label: &str) -> (r: bool)
    ensures
        r == (byte_len(label@) <= MAX_OPTION_LABEL_LEN),
{
    text_byte_len(label) <= MAX_OPTION_LABEL_LEN
}

/// Whether an option count is within bounds.
pub fn option_count_ok(count: usize) -> (r: bool)
    ensures
        r == (MIN_OPTIONS <= count <= MAX_OPTIONS),
{
    MIN_OPTIONS <= count && count <= MAX_OPTIONS
}

/// Whether a voting window is non-empty: the end must lie strictly after
/// the start.
pub fn schedule_ok(start_ts: i64, end_ts: i64) -> (r: bool)
    ensures
        r == (end_ts > start_ts),
{
    end_ts > start_ts
}

/// The error a poll creation reports, or `None` when it succeeds: the checks
/// run in this order and the first failing one is reported. The label check
/// runs while the option list is built, so the first over-length label is the
/// one reported.
pub open spec fn create_outcome(
    title: Seq<char>,
    description: Seq<char>,
    labels: Seq<String>,
    start_ts: i64,
    end_ts: i64,
) -> Option<PollError> {
    if labels.len() < MIN_OPTIONS {
        Some(PollError::NotEnoughOptions)
    } else if labels.len() > MAX_OPTIONS {
        Some(PollError::TooManyOptions)
    } else if byte_len(title) > MAX_TITLE_LEN {
        Some(PollError::TitleTooLong)
    } else if byte_len(description) > MAX_DESCRIPTION_LEN {
        Some(PollError::DescriptionTooLong)
    } else if end_ts <= start_ts {
        Some(PollError::InvalidSchedule)
    } else if exists|i: int|
        0 <= i < labels.len() && byte_len((#[trigger] labels[i])@) > MAX_OPTION_LABEL_LEN {
        Some(PollError::OptionLabelTooLong)
    } else {
        None
    }
}

/// Checks every creation rule against the supplied parameters, reporting the
/// first violated one in the order [`create_outcome`] fixes.
pub fn check_create(params: &CreatePollParams) -> (r: Result<(), PollError>)
    ensures
        ({
            let outcome = create_outcome(
                params.title@,
                params.description@,
                params.options@,
                params.start_ts,
                params.end_ts,
            );
            match r {
                Ok(()) => outcome is None,
                Err(e) => outcome == Some(e),
            }
        }),
{
    if params.options.len() < MIN_OPTIONS {
        return Err(PollError::NotEnoughOptions);
    }
    if params.options.len() > MAX_OPTIONS {
        return Err(PollError::TooManyOptions);
    }
    if !title_ok(params.title.as_str()) {
        return Err(PollError::TitleTooLong);
    }
    if !description_ok(params.description.as_str()) {
        return Err(PollError::DescriptionTooLong);
    }
    if !schedule_ok(params.start_ts, params.end_ts) {
        return Err(PollError::InvalidSchedule);
    }
    let mut i: usize = 0;
    while i < params.options.len()
        invariant
            i <= params.options@.len(),
            MIN_OPTIONS <= params.options@.len() <= MAX_OPTIONS,
            byte_len(params.title@) <= MAX_TITLE_LEN,
            byte_len(params.description@) <= MAX_DESCRIPTION_LEN,
            params.end_ts > params.start_ts,
            forall|j: int|
                0 <= j < i ==> byte_len((#[trigger] params.options@[j])@) <= MAX_OPTION_LABEL_LEN,
        decreases params.options@.len() - i,
    {
        if !label_ok(params.options[i].as_str()) {
            assert(byte_len((params.options@[i as int])@) > MAX_OPTION_LABEL_LEN);
            return Err(PollError::OptionLabelTooLong);
        }
        i += 1;
    }
    Ok(())
}

/// The error a vote reports, or `None` when it succeeds, given the addressed
/// poll, whether this voter already holds a record for it, the chosen index,
/// and the current time. Checked in this order: closed, not yet started,
/// already ended, duplicate vote, index out of range, counter at its maximum.
/// Both window boundaries are inclusive for voting.
pub open spec fn vote_outcome(
    poll: Poll,
    already_voted: bool,
    option_index: u8,
    now: i64,
) -> Option<PollError> {
    if poll.is_closed {
        Some(PollError::PollClosed)
    } else if now < poll.start_ts {
        Some(PollError::PollNotStarted)
    } else if now > poll.end_ts {
        Some(PollError::PollEnded)
    } else if already_voted {
        Some(PollError::AlreadyVoted)
    } else if poll.options@.len() <= option_index {
        Some(PollError::InvalidOption)
    } else if poll.options@[option_index as int].votes == u64::MAX {
        Some(PollError::VoteOverflow)
    } else {
        None
    }
}

/// The error a close reports, or `None` when it succeeds: only the creator
/// may close, only once, and only from `end_ts` on — so at exactly
/// `now == end_ts` the poll is both still open for voting and eligible to
/// close.
pub open spec fn close_outcome(poll: Poll, actor: Identity, now: i64) -> Option<PollError> {
    if actor != poll.creator {
        Some(PollError::Unauthorized)
    } else if poll.is_closed {
        Some(PollError::PollClosed)
    } else if now < poll.end_ts {
        Some(PollError::PollStillActive)
    } else {
        None
    }
}

} // verus!
