//! The guarantees the engine keeps, stated on their own and proved once and
//! for all: how the outcome of a transition is pinned down by the state it
//! reads, and what the store invariant rules out.
//!
//! Together with the transitions' own contracts — every rejection leaves the
//! store untouched, every success mutates exactly the addressed records —
//! these carry the system-wide promises: one vote per identity per poll,
//! tallies that only ever grow by the votes cast, and a close that is final.

use vstd::prelude::*;

use crate::error::PollError;
use crate::ledger::Ledger;
use crate::state::Identity;
use crate::state::Poll;
use crate::state::PollStatus;
use crate::state::VoteOption;
use crate::state::MAX_OPTIONS;
use crate::state::MIN_OPTIONS;
use crate::validate::close_outcome;
use crate::validate::create_outcome;
use crate::validate::vote_outcome;

verus! {

/// A creation whose option count lies outside the allowed bounds is always
/// rejected, with the matching error; no state is written, since every
/// rejected creation leaves the store exactly as it was.
pub proof fn lemma_option_count_rejected(
    title: Seq<char>,
    description: Seq<char>,
    labels: Seq<String>,
    start_ts: i64,
    end_ts: i64,
)
    requires
        labels.len() < MIN_OPTIONS || labels.len() > MAX_OPTIONS,
    ensures
        create_outcome(title, description, labels, start_ts, end_ts) is Some,
        labels.len() < MIN_OPTIONS ==> create_outcome(title, description, labels, start_ts, end_ts)
            == Some(PollError::NotEnoughOptions),
        labels.len() > MAX_OPTIONS ==> create_outcome(title, description, labels, start_ts, end_ts)
            == Some(PollError::TooManyOptions),
{
}

/// In a well-formed store an identity holds at most one vote record per
/// poll: two records agreeing on (poll, voter) are the same record. A second
/// vote from the same identity is rejected as `AlreadyVoted` before anything
/// is written, so no second record can ever appear.
pub proof fn lemma_at_most_one_vote_record(l: Ledger, a: int, b: int)
    requires
        l.wf(),
        0 <= a < l.records@.len(),
        0 <= b < l.records@.len(),
        l.records@[a].poll == l.records@[b].poll,
        l.records@[a].voter == l.records@[b].voter,
    ensures
        a == b,
{
    if a < b {
        assert(!(l.records@[a].poll == l.records@[b].poll && l.records@[a].voter
            == l.records@[b].voter));
    }
    if b < a {
        assert(!(l.records@[b].poll == l.records@[a].poll && l.records@[b].voter
            == l.records@[a].voter));
    }
}

/// A voter who already holds a record for a poll is always turned away with
/// `AlreadyVoted` while the poll is open for voting — and every rejected vote
/// leaves every counter unchanged.
pub proof fn lemma_second_vote_rejected(poll: Poll, option_index: u8, now: i64)
    requires
        !poll.is_closed,
        poll.start_ts <= now <= poll.end_ts,
    ensures
        vote_outcome(poll, true, option_index, now) == Some(PollError::AlreadyVoted),
{
}

/// Voting before the window opens or after it ends always fails with the
/// matching temporal error; the window is inclusive at both ends. Every
/// rejected vote leaves every counter unchanged.
pub proof fn lemma_vote_outside_window(poll: Poll, already_voted: bool, option_index: u8, now: i64)
    requires
        !poll.is_closed,
        poll.end_ts > poll.start_ts,
    ensures
        now < poll.start_ts ==> vote_outcome(poll, already_voted, option_index, now) == Some(
            PollError::PollNotStarted,
        ),
        now > poll.end_ts ==> vote_outcome(poll, already_voted, option_index, now) == Some(
            PollError::PollEnded,
        ),
{
}

/// A closed poll is final: every further vote attempt reports `PollClosed`
/// whatever the time, the voter, or the chosen option, and so does every
/// further close attempt by the creator — a close can succeed only once.
pub proof fn lemma_closed_poll_is_final(
    poll: Poll,
    already_voted: bool,
    option_index: u8,
    actor: Identity,
    now: i64,
)
    requires
        poll.is_closed,
    ensures
        vote_outcome(poll, already_voted, option_index, now) == Some(PollError::PollClosed),
        actor == poll.creator ==> close_outcome(poll, actor, now) == Some(PollError::PollClosed),
{
}

/// A tally only ever increases: the one option a successful vote touches
/// rises by exactly one and every other keeps exactly the count it had, so
/// no counter ever decreases or wraps.
pub proof fn lemma_tallies_only_increase(options: Seq<VoteOption>, k: int)
    requires
        0 <= k < options.len(),
        options[k].votes < u64::MAX,
    ensures
        ({
            let updated = options.update(
                k,
                (VoteOption { label: options[k].label, votes: (options[k].votes + 1) as u64 }),
            );
            &&& updated[k].votes == options[k].votes + 1
            &&& forall|i: int|
                0 <= i < options.len() && i != k ==> (#[trigger] updated[i]) == options[i]
        }),
{
}

/// A vote can succeed only while the poll is `Open`; a close can succeed
/// only once the window has passed — in the state `EndedUnclosed`, or still
/// `Open` at exactly the one instant `now == end_ts`.
pub proof fn lemma_outcomes_follow_status(
    poll: Poll,
    already_voted: bool,
    option_index: u8,
    actor: Identity,
    now: i64,
)
    requires
        poll.end_ts > poll.start_ts,
    ensures
        vote_outcome(poll, already_voted, option_index, now) is None ==> poll.spec_status(now)
            == PollStatus::Open,
        close_outcome(poll, actor, now) is None ==> (poll.spec_status(now)
            == PollStatus::EndedUnclosed || (poll.spec_status(now) == PollStatus::Open && now
            == poll.end_ts)),
{
}

/// At exactly `now == end_ts` the poll is both still open for voting and
/// already eligible to close: the overlap is deliberate and preserved.
pub proof fn lemma_end_instant_overlap(poll: Poll, option_index: u8, now: i64)
    requires
        !poll.is_closed,
        poll.start_ts <= now,
        now == poll.end_ts,
        (option_index as int) < poll.options@.len(),
        poll.options@[option_index as int].votes < u64::MAX,
    ensures
        vote_outcome(poll, false, option_index, now) is None,
        close_outcome(poll, poll.creator, now) is None,
{
}

} // verus!
