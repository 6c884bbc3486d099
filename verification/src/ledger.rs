//! The transition engine and its record store.
//!
//! A [`Ledger`] is an explicit key-to-record store standing in for the host's
//! durable storage: polls addressed by their [`PollKey`], vote records by
//! their (poll, voter) pair. The host would derive storage addresses by
//! hashing those keys; only the injectivity of that derivation matters, so
//! the store keeps the keys themselves and guarantees at most one record per
//! key. The three transitions — create, vote, close — take the current time
//! and the acting identity as explicit arguments and either mutate the store
//! atomically or leave it exactly as it was.

use vstd::prelude::*;

use crate::error::PollError;
use crate::state::seed_eq;
use crate::state::total_votes;
use crate::state::CastVoteParams;
use crate::state::CreatePollParams;
use crate::state::Identity;
use crate::state::Poll;
use crate::state::PollKey;
use crate::state::VoteOption;
use crate::state::VoterRecord;
use crate::validate::check_create;
use crate::validate::close_outcome;
use crate::validate::create_outcome;
use crate::validate::vote_outcome;

verus! {

/// All records the system holds: every poll and every proof-of-vote.
pub struct Ledger {
    /// The polls, at most one per (creator, seed) address.
    pub polls: Vec<Poll>,
    /// The vote records, at most one per (poll, voter) pair.
    pub records: Vec<VoterRecord>,
}

impl Ledger {
    /// No two polls share an address.
    pub open spec fn polls_unique(self) -> bool {
        forall|i: int, j: int|
            0 <= i < j < self.polls@.len() ==> (#[trigger] self.polls@[i]).key() != (
            #[trigger] self.polls@[j]).key()
    }

    /// No two vote records share a (poll, voter) pair.
    pub open spec fn records_unique(self) -> bool {
        forall|i: int, j: int|
            0 <= i < j < self.records@.len() ==> !((#[trigger] self.records@[i]).poll == (
            #[trigger] self.records@[j]).poll && self.records@[i].voter == self.records@[j].voter)
    }

    /// Whether a poll lives at the given address.
    pub open spec fn has_poll(self, key: PollKey) -> bool {
        exists|i: int| 0 <= i < self.polls@.len() && (#[trigger] self.polls@[i]).key() == key
    }

    /// The position of the poll at the given address; meaningful only when
    /// [`Self::has_poll`] holds, and then unique by [`Self::polls_unique`].
    pub open spec fn poll_index(self, key: PollKey) -> int {
        choose|i: int| 0 <= i < self.polls@.len() && (#[trigger] self.polls@[i]).key() == key
    }

    /// The poll at the given address; meaningful only when [`Self::has_poll`]
    /// holds.
    pub open spec fn poll_at(self, key: PollKey) -> Poll {
        self.polls@[self.poll_index(key)]
    }

    /// Whether this voter already holds a vote record for this poll — the
    /// "already voted" marker.
    pub open spec fn has_voted(self, key: PollKey, voter: Identity) -> bool {
        exists|i: int|
            0 <= i < self.records@.len() && (#[trigger] self.records@[i]).poll == key
                && self.records@[i].voter == voter
    }

    /// The invariant every reachable ledger satisfies: unique addresses,
    /// unique (poll, voter) pairs, every stored poll well formed, and every
    /// vote record pointing at a poll that exists.
    pub open spec fn wf(self) -> bool {
        &&& self.polls_unique()
        &&& self.records_unique()
        &&& forall|i: int| 0 <= i < self.polls@.len() ==> (#[trigger] self.polls@[i]).wf()
        &&& forall|i: int|
            0 <= i < self.records@.len() ==> self.has_poll((#[trigger] self.records@[i]).poll)
    }

    /// Any position holding the sought key is the position [`Self::poll_index`]
    /// names, as long as addresses are unique.
    pub proof fn lemma_poll_index_agrees(self, key: PollKey, i: int)
        requires
            self.polls_unique(),
            0 <= i < self.polls@.len(),
            self.polls@[i].key() == key,
        ensures
            self.has_poll(key),
            self.poll_index(key) == i,
    {
        assert(self.has_poll(key));
        let j = self.poll_index(key);
        if i != j {
            assert(self.polls@[i].key() != self.polls@[j].key());
        }
    }

    /// An empty store: no polls, no vote records.
    pub fn new() -> (r: Ledger)
        ensures
            r.wf(),
            r.polls@ =~= Seq::<Poll>::empty(),
            r.records@ =~= Seq::<VoterRecord>::empty(),
    {
        Ledger { polls: Vec::new(), records: Vec::new() }
    }

    /// Looks the given address up among the polls.
    fn find_poll_index(&self, key: &PollKey) -> (r: Option<usize>)
        ensures
            match r {
                Some(i) => i < self.polls@.len() && self.polls@[i as int].key() == *key,
                None => !self.has_poll(*key),
            },
    {
        let mut i: usize = 0;
        while i < self.polls.len()
            invariant
                i <= self.polls@.len(),
                forall|j: int| 0 <= j < i ==> (#[trigger] self.polls@[j]).key() != *key,
            decreases self.polls@.len() - i,
        {
            let p = &self.polls[i];
            if p.creator == key.creator && seed_eq(&p.seed, &key.seed) {
                assert(self.polls@[i as int].key() == *key);
                return Some(i);
            }
            i += 1;
        }
        None
    }

    /// Whether a vote record for this (poll, voter) pair exists.
    pub fn has_vote_record(&self, key: &PollKey, voter: Identity) -> (r: bool)
        ensures
            r == self.has_voted(*key, voter),
    {
        let mut i: usize = 0;
        while i < self.records.len()
            invariant
                i <= self.records@.len(),
                forall|j: int|
                    0 <= j < i ==> !((#[trigger] self.records@[j]).poll == *key
                        && self.records@[j].voter == voter),
            decreases self.records@.len() - i,
        {
            let rec = &self.records[i];
            if rec.poll.matches(key) && rec.voter == voter {
                return true;
            }
            i += 1;
        }
        false
    }

    /// The poll at the given address, if one exists.
    pub fn get_poll(&self, key: &PollKey) -> (r: Option<&Poll>)
        requires
            self.polls_unique(),
        ensures
            match r {
                Some(p) => self.has_poll(*key) && *p == self.poll_at(*key),
                None => !self.has_poll(*key),
            },
    {
        match self.find_poll_index(key) {
            Some(i) => {
                proof {
                    self.lemma_poll_index_agrees(*key, i as int);
                }
                Some(&self.polls[i])
            },
            None => None,
        }
    }

    /// Creates a poll at the address (creator, seed) and returns that
    /// address. The host guarantees the address is not yet taken. Every
    /// creation rule is checked, in the order [`create_outcome`] fixes,
    /// before anything is written: on any rejection the store is exactly as
    /// it was. On success the new poll holds the supplied options in the
    /// supplied order, label for label, all counters at zero and the poll
    /// open; no other record changes.
    pub fn create_poll(&mut self, creator: Identity, params: CreatePollParams) -> (r: Result<
        PollKey,
        PollError,
    >)
        requires
            old(self).wf(),
            !old(self).has_poll(PollKey { creator, seed: params.seed }),
        ensures
            final(self).wf(),
            ({
                let outcome = create_outcome(
                    params.title@,
                    params.description@,
                    params.options@,
                    params.start_ts,
                    params.end_ts,
                );
                match r {
                    Ok(key) => {
                        &&& outcome is None
                        &&& key == (PollKey { creator, seed: params.seed })
                        &&& final(self).records@ == old(self).records@
                        &&& final(self).polls@.len() == old(self).polls@.len() + 1
                        &&& final(self).polls@ =~= old(self).polls@.push(
                            final(self).polls@.last(),
                        )
                        &&& ({
                            let p = final(self).polls@.last();
                            &&& p.creator == creator
                            &&& p.seed == params.seed
                            &&& p.title@ == params.title@
                            &&& p.description@ == params.description@
                            &&& p.options@.len() == params.options@.len()
                            &&& (forall|i: int|
                                0 <= i < p.options@.len() ==> (
                                #[trigger] p.options@[i]).label@ == (params.options@[i])@
                                    && p.options@[i].votes == 0)
                            &&& p.start_ts == params.start_ts
                            &&& p.end_ts == params.end_ts
                            &&& !p.is_closed
                            &&& p.key() == key
                        })
                    },
                    Err(e) => {
                        &&& outcome == Some(e)
                        &&& *final(self) == *old(self)
                    },
                }
            }),
    {
        match check_create(&params) {
            Err(e) => {
                return Err(e);
            },
            Ok(()) => {},
        }
        let mut vote_options: Vec<VoteOption> = Vec::new();
        let mut i: usize = 0;
        while i < params.options.len()
            invariant
                i <= params.options@.len(),
                vote_options@.len() == i,
                forall|j: int|
                    0 <= j < i ==> (#[trigger] vote_options@[j]).label@ == (params.options@[j])@
                        && vote_options@[j].votes == 0,
            decreases params.options@.len() - i,
        {
            let label = params.options[i].clone();
            vote_options.push(VoteOption { label, votes: 0 });
            i += 1;
        }
        let key = PollKey { creator, seed: params.seed };
        let poll = Poll {
            creator,
            seed: params.seed,
            title: params.title,
            description: params.description,
            options: vote_options,
            start_ts: params.start_ts,
            end_ts: params.end_ts,
            is_closed: false,
        };
        assert(poll.wf());
        self.polls.push(poll);
        proof {
            let op = old(self).polls@;
            let np = self.polls@;
            assert forall|a: int, b: int| 0 <= a < b < np.len() implies (#[trigger] np[a]).key()
                != (#[trigger] np[b]).key() by {
                if b < op.len() {
                    assert(old(self).polls@[a].key() != old(self).polls@[b].key());
                } else {
                    assert(np[b] == poll);
                    assert(op[a].key() != key);
                }
            };
            assert forall|a: int| 0 <= a < self.records@.len() implies self.has_poll(
                (#[trigger] self.records@[a]).poll,
            ) by {
                let k = self.records@[a].poll;
                assert(old(self).has_poll(k));
                let w = choose|x: int| 0 <= x < op.len() && (#[trigger] op[x]).key() == k;
                assert(np[w].key() == k);
            };
        }
        Ok(key)
    }

    /// Casts one vote on the poll at the given address, for the given
    /// authenticated voter, at the given current time. The host guarantees
    /// the poll exists. The preconditions are checked in the order
    /// [`vote_outcome`] fixes and the first failing one is reported, with the
    /// store left exactly as it was. On success the chosen option's counter
    /// rises by exactly one — so the poll's vote total rises by exactly one
    /// and no other poll changes — and the proof-of-vote record is created
    /// with it atomically.
    pub fn cast_vote(
        &mut self,
        key: &PollKey,
        voter: Identity,
        params: CastVoteParams,
        now: i64,
    ) -> (r: Result<VoterRecord, PollError>)
        requires
            old(self).wf(),
            old(self).has_poll(*key),
        ensures
            final(self).wf(),
            ({
                let i = old(self).poll_index(*key);
                let poll = old(self).poll_at(*key);
                let already = old(self).has_voted(*key, voter);
                let outcome = vote_outcome(poll, already, params.option_index, now);
                match r {
                    Ok(rec) => {
                        &&& outcome is None
                        &&& rec == (VoterRecord {
                            poll: *key,
                            voter,
                            selected_option: params.option_index,
                        })
                        &&& final(self).records@ =~= old(self).records@.push(rec)
                        &&& final(self).polls@ =~= old(self).polls@.update(
                            i,
                            final(self).polls@[i],
                        )
                        &&& ({
                            let np = final(self).polls@[i];
                            let k = params.option_index as int;
                            &&& np.creator == poll.creator
                            &&& np.seed == poll.seed
                            &&& np.title == poll.title
                            &&& np.description == poll.description
                            &&& np.start_ts == poll.start_ts
                            &&& np.end_ts == poll.end_ts
                            &&& np.is_closed == poll.is_closed
                            &&& np.options@ =~= poll.options@.update(
                                k,
                                (VoteOption {
                                    label: poll.options@[k].label,
                                    votes: (poll.options@[k].votes + 1) as u64,
                                }),
                            )
                            &&& total_votes(np.options@) == total_votes(poll.options@) + 1
                            &&& final(self).has_voted(*key, voter)
                        })
                    },
                    Err(e) => {
                        &&& outcome == Some(e)
                        &&& *final(self) == *old(self)
                    },
                }
            }),
    {
        let idx_opt = self.find_poll_index(key);
        let idx = idx_opt.unwrap();
        proof {
            self.lemma_poll_index_agrees(*key, idx as int);
        }
        if self.polls[idx].is_closed {
            return Err(PollError::PollClosed);
        }
        if now < self.polls[idx].start_ts {
            return Err(PollError::PollNotStarted);
        }
        if now > self.polls[idx].end_ts {
            return Err(PollError::PollEnded);
        }
        if self.has_vote_record(key, voter) {
            return Err(PollError::AlreadyVoted);
        }
        let oi = params.option_index as usize;
        if oi >= self.polls[idx].options.len() {
            return Err(PollError::InvalidOption);
        }
        if self.polls[idx].options[oi].votes == u64::MAX {
            return Err(PollError::VoteOverflow);
        }
        let ghost old_poll = self.polls@[idx as int];
        let p = &mut self.polls[idx];
        let o = &mut p.options[oi];
        o.votes = o.votes + 1;
        let rec = VoterRecord { poll: *key, voter, selected_option: params.option_index };
        self.records.push(rec);
        proof {
            let np = self.polls@[idx as int];
            assert(np.options@ =~= old_poll.options@.update(
                oi as int,
                (VoteOption {
                    label: old_poll.options@[oi as int].label,
                    votes: (old_poll.options@[oi as int].votes + 1) as u64,
                }),
            ));
            crate::state::lemma_total_votes_update(
                old_poll.options@,
                oi as int,
                np.options@[oi as int],
            );
            assert(self.polls@ =~= old(self).polls@.update(idx as int, np));
            // addresses are untouched, so uniqueness and every record's
            // back-reference survive
            assert forall|a: int, b: int| 0 <= a < b < self.polls@.len() implies (
            #[trigger] self.polls@[a]).key() != (#[trigger] self.polls@[b]).key() by {
                assert(old(self).polls@[a].key() != old(self).polls@[b].key());
            }
            assert forall|a: int| 0 <= a < self.polls@.len() implies (
            #[trigger] self.polls@[a]).wf() by {
                assert(old(self).polls@[a].wf());
                if a == idx as int {
                    assert forall|c: int| 0 <= c < np.options@.len() implies crate::state::byte_len(
                        (#[trigger] np.options@[c]).label@,
                    ) <= crate::state::MAX_OPTION_LABEL_LEN by {
                        assert(np.options@[c].label == old_poll.options@[c].label);
                    }
                }
            }
            assert forall|a: int, b: int| 0 <= a < b < self.records@.len() implies !((
            #[trigger] self.records@[a]).poll == (#[trigger] self.records@[b]).poll
                && self.records@[a].voter == self.records@[b].voter) by {
                if b < old(self).records@.len() {
                    assert(!(old(self).records@[a].poll == old(self).records@[b].poll && old(
                        self,
                    ).records@[a].voter == old(self).records@[b].voter));
                } else {
                    assert(!old(self).has_voted(*key, voter));
                    assert(!(old(self).records@[a].poll == *key && old(self).records@[a].voter
                        == voter));
                }
            }
            assert(self.polls@[idx as int].key() == *key);
            assert forall|a: int| 0 <= a < self.records@.len() implies self.has_poll(
                (#[trigger] self.records@[a]).poll,
            ) by {
                if a < old(self).records@.len() {
                    let k = self.records@[a].poll;
                    assert(old(self).has_poll(k));
                    let w = choose|x: int|
                        0 <= x < old(self).polls@.len() && (#[trigger] old(self).polls@[x]).key()
                            == k;
                    assert(self.polls@[w].key() == k);
                }
            }
            assert(self.records@[self.records@.len() - 1] == rec);
            assert(self.has_voted(*key, voter));
        }
        Ok(rec)
    }

    /// Closes the poll at the given address, for the given acting identity,
    /// at the given current time. The host guarantees the poll exists. Only
    /// the creator may close, only once, and only from `end_ts` on; the
    /// checks run in the order [`close_outcome`] fixes and any rejection
    /// leaves the store exactly as it was. On success only the poll's
    /// `is_closed` flag changes, from false to true; after that every vote
    /// attempt reports `PollClosed`, whatever the time.
    pub fn close_poll(&mut self, key: &PollKey, actor: Identity, now: i64) -> (r: Result<
        (),
        PollError,
    >)
        requires
            old(self).wf(),
            old(self).has_poll(*key),
        ensures
            final(self).wf(),
            ({
                let i = old(self).poll_index(*key);
                let poll = old(self).poll_at(*key);
                let outcome = close_outcome(poll, actor, now);
                match r {
                    Ok(()) => {
                        &&& outcome is None
                        &&& final(self).records@ == old(self).records@
                        &&& final(self).polls@ =~= old(self).polls@.update(
                            i,
                            final(self).polls@[i],
                        )
                        &&& ({
                            let np = final(self).polls@[i];
                            &&& np.creator == poll.creator
                            &&& np.seed == poll.seed
                            &&& np.title == poll.title
                            &&& np.description == poll.description
                            &&& np.options == poll.options
                            &&& np.start_ts == poll.start_ts
                            &&& np.end_ts == poll.end_ts
                            &&& np.is_closed
                        })
                    },
                    Err(e) => {
                        &&& outcome == Some(e)
                        &&& *final(self) == *old(self)
                    },
                }
            }),
    {
        let idx_opt = self.find_poll_index(key);
        let idx = idx_opt.unwrap();
        proof {
            self.lemma_poll_index_agrees(*key, idx as int);
        }
        if actor != self.polls[idx].creator {
            return Err(PollError::Unauthorized);
        }
        if self.polls[idx].is_closed {
            return Err(PollError::PollClosed);
        }
        if now < self.polls[idx].end_ts {
            return Err(PollError::PollStillActive);
        }
        let p = &mut self.polls[idx];
        p.is_closed = true;
        proof {
            let np = self.polls@[idx as int];
            assert(self.polls@ =~= old(self).polls@.update(idx as int, np));
            assert forall|a: int, b: int| 0 <= a < b < self.polls@.len() implies (
            #[trigger] self.polls@[a]).key() != (#[trigger] self.polls@[b]).key() by {
                assert(old(self).polls@[a].key() != old(self).polls@[b].key());
            }
            assert forall|a: int| 0 <= a < self.polls@.len() implies (
            #[trigger] self.polls@[a]).wf() by {
                assert(old(self).polls@[a].wf());
            }
            assert forall|a: int| 0 <= a < self.records@.len() implies self.has_poll(
                (#[trigger] self.records@[a]).poll,
            ) by {
                let k = self.records@[a].poll;
                assert(old(self).has_poll(k));
                let w = choose|x: int|
                    0 <= x < old(self).polls@.len() && (#[trigger] old(self).polls@[x]).key() == k;
                assert(self.polls@[w].key() == k);
            }
        }
        Ok(())
    }

    /// The vote record for this (poll, voter) pair, if one exists.
    pub fn get_vote_record(&self, key: &PollKey, voter: Identity) -> (r: Option<&VoterRecord>)
        ensures
            match r {
                Some(rec) => self.has_voted(*key, voter) && rec.poll == *key && rec.voter == voter,
                None => !self.has_voted(*key, voter),
            },
    {
        let mut i: usize = 0;
        while i < self.records.len()
            invariant
                i <= self.records@.len(),
                forall|j: int|
                    0 <= j < i ==> !((#[trigger] self.records@[j]).poll == *key
                        && self.records@[j].voter == voter),
            decreases self.records@.len() - i,
        {
            let rec = &self.records[i];
            if rec.poll.matches(key) && rec.voter == voter {
                return Some(rec);
            }
            i += 1;
        }
        None
    }
}

} // verus!
