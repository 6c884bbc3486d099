//! Record schemas: the `Poll` and `VoterRecord` data definitions, their byte
//! budgets, and the invariants every stored record satisfies.
//!
//! Identities are plain values supplied by the host, which authenticates
//! callers; the engine only ever compares them. A poll is addressed by its
//! [`PollKey`], the (creator, seed) pair; a vote record by its (poll, voter)
//! pair. Text budgets are measured in encoded bytes, not characters.

use vstd::prelude::*;

verus! {

broadcast use vstd::array::group_array_axioms;

/// An authenticated account identity, as the host hands it to the engine.
pub type Identity = u64;

/// Most options a poll may offer.
pub const MAX_OPTIONS: usize = 8;

/// Fewest options a poll may offer.
pub const MIN_OPTIONS: usize = 2;

/// Byte budget for a poll's title.
pub const MAX_TITLE_LEN: usize = 64;

/// Byte budget for a poll's description.
pub const MAX_DESCRIPTION_LEN: usize = 256;

/// Byte budget for each option label.
pub const MAX_OPTION_LABEL_LEN: usize = 32;

/// Worst-case serialized size of a poll on a host that stores an 8-byte
/// record tag, 32-byte identities, and 4-byte length prefixes before each
/// text field and the option list: record tag, creator, seed, title,
/// description, eight options of label and counter, the two timestamps, the
/// address bump, and the closed flag. Storage is sized for the maximum option
/// count and label length, never for the actual content, so counters can be
/// updated in place without reallocation.
pub const POLL_SPACE: usize = 8 + 32 + 8 + (4 + 64) + (4 + 256) + (4 + 8 * (4 + 32 + 8)) + 8 + 8
    + 1 + 1;

/// Worst-case serialized size of a vote record on the same host: record tag,
/// the poll's address, the voter's identity, the chosen index, and the
/// address bump.
pub const VOTER_RECORD_SPACE: usize = 8 + 32 + 32 + 1 + 1;

/// The encoded byte length of a text value: what `str::len` returns,
/// as opposed to the character count.
pub open spec fn byte_len(s: Seq<char>) -> nat {
    vstd::utf8::encode_utf8(s).len()
}

/// One ballot choice: its label and its tally.
pub struct VoteOption {
    /// The label supplied at creation, immutable thereafter.
    pub label: String,
    /// How many votes this option has received. Only ever increments.
    pub votes: u64,
}

/// The deterministic address of a poll: one poll per (creator, seed) pair.
/// The seed lets one creator run several polls at once.
#[derive(Clone, Copy)]
pub struct PollKey {
    /// The identity that created, and alone may close, the poll.
    pub creator: Identity,
    /// Caller-chosen disambiguator, fixed at creation.
    pub seed: [u8; 8],
}

/// A poll: its question, ordered options, voting window, and tallies.
pub struct Poll {
    /// The identity allowed to close the poll. Immutable.
    pub creator: Identity,
    /// Part of the poll's address. Immutable.
    pub seed: [u8; 8],
    /// At most [`MAX_TITLE_LEN`] bytes.
    pub title: String,
    /// At most [`MAX_DESCRIPTION_LEN`] bytes.
    pub description: String,
    /// Ordered ballot choices; the index is the ballot. Length in
    /// [[`MIN_OPTIONS`], [`MAX_OPTIONS`]]; order and labels fixed at creation.
    pub options: Vec<VoteOption>,
    /// Start of the voting window (inclusive), a Unix timestamp.
    pub start_ts: i64,
    /// End of the voting window (inclusive for voting), a Unix timestamp.
    pub end_ts: i64,
    /// False at creation; becomes true exactly once and never reverts.
    pub is_closed: bool,
}

/// The permanent proof-of-vote for one (poll, voter) pair. Created atomically
/// with the vote it records, never mutated or deleted: its existence is
/// itself the "already voted" marker.
#[derive(Clone, Copy)]
pub struct VoterRecord {
    /// The poll this record belongs to — a relation, not an owning pointer.
    pub poll: PollKey,
    /// The identity that cast the vote.
    pub voter: Identity,
    /// The option index chosen, fixed permanently once written.
    pub selected_option: u8,
}

/// Everything a caller supplies to create a poll; the creator's identity
/// arrives separately, authenticated by the host.
pub struct CreatePollParams {
    /// Part of the new poll's address, chosen by the caller.
    pub seed: [u8; 8],
    /// The poll's title.
    pub title: String,
    /// The poll's description.
    pub description: String,
    /// The ballot choices, in the order they will keep forever.
    pub options: Vec<String>,
    /// Start of the voting window.
    pub start_ts: i64,
    /// End of the voting window.
    pub end_ts: i64,
}

/// Everything a caller supplies to cast a vote; the voter's identity and the
/// poll's address arrive separately.
#[derive(Clone, Copy)]
pub struct CastVoteParams {
    /// The chosen ballot index.
    pub option_index: u8,
}

/// The state a poll is in, derived from the current time and its stored
/// fields at each check — only `Closed` is stored, as the `is_closed` flag.
#[derive(Clone, Copy, Debug, PartialEq, Eq, Structural)]
pub enum PollStatus {
    /// The voting window has not opened yet.
    Scheduled,
    /// The voting window is open, both ends inclusive.
    Open,
    /// The voting window has passed but the creator has not closed the poll.
    EndedUnclosed,
    /// The creator has closed the poll; final.
    Closed,
}

impl Poll {
    /// The address this poll lives at.
    pub open spec fn key(self) -> PollKey {
        PollKey { creator: self.creator, seed: self.seed }
    }

    /// The state this poll is in at the given time.
    pub open spec fn spec_status(self, now: i64) -> PollStatus {
        if self.is_closed {
            PollStatus::Closed
        } else if now < self.start_ts {
            PollStatus::Scheduled
        } else if now <= self.end_ts {
            PollStatus::Open
        } else {
            PollStatus::EndedUnclosed
        }
    }

    /// Computes the state this poll is in at the given time.
    pub fn status(&self, now: i64) -> (r: PollStatus)
        ensures
            r == self.spec_status(now),
    {
        if self.is_closed {
            PollStatus::Closed
        } else if now < self.start_ts {
            PollStatus::Scheduled
        } else if now <= self.end_ts {
            PollStatus::Open
        } else {
            PollStatus::EndedUnclosed
        }
    }

    /// The invariant every stored poll satisfies: option count and all text
    /// fields within budget, and a non-empty voting window.
    pub open spec fn wf(self) -> bool {
        &&& MIN_OPTIONS <= self.options@.len() <= MAX_OPTIONS
        &&& byte_len(self.title@) <= MAX_TITLE_LEN
        &&& byte_len(self.description@) <= MAX_DESCRIPTION_LEN
        &&& forall|i: int|
            0 <= i < self.options@.len() ==> byte_len(
                (#[trigger] self.options@[i]).label@,
            ) <= MAX_OPTION_LABEL_LEN
        &&& self.end_ts > self.start_ts
    }
}

/// The sum of all tallies of a poll's options.
pub open spec fn total_votes(options: Seq<VoteOption>) -> int
    decreases options.len(),
{
    if options.len() == 0 {
        0
    } else {
        total_votes(options.drop_last()) + options.last().votes
    }
}

/// Replacing one option changes the total by exactly the change in that
/// option's tally.
pub proof fn lemma_total_votes_update(options: Seq<VoteOption>, i: int, v: VoteOption)
    requires
        0 <= i < options.len(),
    ensures
        total_votes(options.update(i, v)) == total_votes(options) - options[i].votes + v.votes,
    decreases options.len(),
{
    let updated = options.update(i, v);
    if i == options.len() - 1 {
        assert(updated.drop_last() =~= options.drop_last());
    } else {
        assert(updated.drop_last() =~= options.drop_last().update(i, v));
        lemma_total_votes_update(options.drop_last(), i, v);
    }
}

/// Whether two seeds hold the same bytes.
pub fn seed_eq(a: &[u8; 8], b: &[u8; 8]) -> (r: bool)
    ensures
        r == (*a == *b),
{
    let mut i: usize = 0;
    while i < 8
        invariant
            i <= 8,
            forall|j: int| 0 <= j < i ==> a@[j] == b@[j],
        decreases 8 - i,
    {
        if a[i] != b[i] {
            return false;
        }
        i += 1;
    }
    assert(*a =~= *b);
    true
}

impl PollKey {
    /// Whether two addresses name the same poll.
    pub fn matches(&self, other: &PollKey) -> (r: bool)
        ensures
            r == (*self == *other),
    {
        self.creator == other.creator && seed_eq(&self.seed, &other.seed)
    }
}

} // verus!
