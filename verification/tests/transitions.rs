use poll::error::PollError;
use poll::ledger::Ledger;
use poll::state::CastVoteParams;
use poll::state::CreatePollParams;
use poll::state::Poll;
use poll::state::PollKey;
use poll::state::PollStatus;
use poll::state::VoteOption;

fn params(
    seed: [u8; 8],
    title: &str,
    description: &str,
    options: &[&str],
    start_ts: i64,
    end_ts: i64,
) -> CreatePollParams {
    CreatePollParams {
        seed,
        title: title.to_string(),
        description: description.to_string(),
        options: options.iter().map(|s| s.to_string()).collect(),
        start_ts,
        end_ts,
    }
}

fn vote(l: &mut Ledger, key: &PollKey, voter: u64, option_index: u8, now: i64) -> Result<(), PollError> {
    l.cast_vote(key, voter, CastVoteParams { option_index }, now).map(|_| ())
}

#[test]
fn scenario_full_poll_lifecycle() {
    let mut l = Ledger::new();
    let creator: u64 = 7;
    let seed = [1, 0, 0, 0, 0, 0, 0, 0];
    let key = l
        .create_poll(creator, params(seed, "Favourite", "Pick one", &["A", "B", "C"], 100, 200))
        .unwrap();
    assert_eq!(key.creator, creator);
    assert_eq!(key.seed, seed);

    // voting before the window opens
    assert_eq!(vote(&mut l, &key, 11, 1, 50).err(), Some(PollError::PollNotStarted));

    // a vote inside the window succeeds and is tallied
    let rec = l.cast_vote(&key, 11, CastVoteParams { option_index: 1 }, 150).unwrap();
    assert!(rec.poll.matches(&key));
    assert_eq!(rec.voter, 11);
    assert_eq!(rec.selected_option, 1);
    assert_eq!(l.get_poll(&key).unwrap().options[1].votes, 1);

    // the same voter may not vote twice
    assert_eq!(vote(&mut l, &key, 11, 0, 160).err(), Some(PollError::AlreadyVoted));
    assert_eq!(l.get_poll(&key).unwrap().options[0].votes, 0);
    assert_eq!(l.get_poll(&key).unwrap().options[1].votes, 1);

    // the creator may not close before the window ends
    assert_eq!(l.close_poll(&key, creator, 180).err(), Some(PollError::PollStillActive));

    // a non-creator may never close
    assert_eq!(l.close_poll(&key, 999, 200).err(), Some(PollError::Unauthorized));

    // the creator closes once the window has ended
    assert!(l.close_poll(&key, creator, 200).is_ok());
    assert!(l.get_poll(&key).unwrap().is_closed);

    // afterwards every vote attempt reports a closed poll, whatever the time
    assert_eq!(vote(&mut l, &key, 12, 0, 150).err(), Some(PollError::PollClosed));
    assert_eq!(vote(&mut l, &key, 13, 0, 500).err(), Some(PollError::PollClosed));

    // and a second close reports the same
    assert_eq!(l.close_poll(&key, creator, 300).err(), Some(PollError::PollClosed));
}

#[test]
fn create_rejects_too_few_options() {
    let mut l = Ledger::new();
    let r = l.create_poll(1, params([0; 8], "t", "d", &["only"], 0, 10));
    assert_eq!(r.err(), Some(PollError::NotEnoughOptions));
    let r = l.create_poll(1, params([0; 8], "t", "d", &[], 0, 10));
    assert_eq!(r.err(), Some(PollError::NotEnoughOptions));
    assert!(l.get_poll(&PollKey { creator: 1, seed: [0; 8] }).is_none());
}

#[test]
fn create_rejects_too_many_options() {
    let mut l = Ledger::new();
    let nine = ["a", "b", "c", "d", "e", "f", "g", "h", "i"];
    let r = l.create_poll(1, params([0; 8], "t", "d", &nine, 0, 10));
    assert_eq!(r.err(), Some(PollError::TooManyOptions));
    assert!(l.get_poll(&PollKey { creator: 1, seed: [0; 8] }).is_none());
}

#[test]
fn create_accepts_two_and_eight_options() {
    let mut l = Ledger::new();
    assert!(l.create_poll(1, params([0; 8], "t", "d", &["a", "b"], 0, 10)).is_ok());
    let eight = ["a", "b", "c", "d", "e", "f", "g", "h"];
    assert!(l.create_poll(1, params([1; 8], "t", "d", &eight, 0, 10)).is_ok());
}

#[test]
fn create_rejects_long_title() {
    let mut l = Ledger::new();
    let long = "x".repeat(65);
    let r = l.create_poll(1, params([0; 8], &long, "d", &["a", "b"], 0, 10));
    assert_eq!(r.err(), Some(PollError::TitleTooLong));
    let exact = "x".repeat(64);
    assert!(l.create_poll(1, params([0; 8], &exact, "d", &["a", "b"], 0, 10)).is_ok());
}

#[test]
fn create_rejects_long_description() {
    let mut l = Ledger::new();
    let long = "x".repeat(257);
    let r = l.create_poll(1, params([0; 8], "t", &long, &["a", "b"], 0, 10));
    assert_eq!(r.err(), Some(PollError::DescriptionTooLong));
    let exact = "x".repeat(256);
    assert!(l.create_poll(1, params([0; 8], "t", &exact, &["a", "b"], 0, 10)).is_ok());
}

#[test]
fn create_rejects_long_option_label() {
    let mut l = Ledger::new();
    let long = "x".repeat(33);
    let r = l.create_poll(1, params([0; 8], "t", "d", &["a", &long], 0, 10));
    assert_eq!(r.err(), Some(PollError::OptionLabelTooLong));
    let exact = "x".repeat(32);
    assert!(l.create_poll(1, params([0; 8], "t", "d", &["a", &exact], 0, 10)).is_ok());
}

#[test]
fn text_budgets_measure_bytes_not_characters() {
    // twenty characters, but forty encoded bytes: over the 32-byte label budget
    let mut l = Ledger::new();
    let wide = "é".repeat(20);
    assert_eq!(wide.chars().count(), 20);
    assert_eq!(wide.len(), 40);
    let r = l.create_poll(1, params([0; 8], "t", "d", &["a", &wide], 0, 10));
    assert_eq!(r.err(), Some(PollError::OptionLabelTooLong));
    // sixteen of them fit the budget exactly
    let fits = "é".repeat(16);
    assert_eq!(fits.len(), 32);
    assert!(l.create_poll(1, params([0; 8], "t", "d", &["a", &fits], 0, 10)).is_ok());
}

#[test]
fn create_rejects_bad_schedule() {
    let mut l = Ledger::new();
    let r = l.create_poll(1, params([0; 8], "t", "d", &["a", "b"], 10, 10));
    assert_eq!(r.err(), Some(PollError::InvalidSchedule));
    let r = l.create_poll(1, params([0; 8], "t", "d", &["a", "b"], 10, 5));
    assert_eq!(r.err(), Some(PollError::InvalidSchedule));
}

#[test]
fn create_reports_first_failing_check() {
    // both the title and the schedule are bad: the title is reported first
    let mut l = Ledger::new();
    let long = "x".repeat(65);
    let r = l.create_poll(1, params([0; 8], &long, "d", &["a", "b"], 10, 5));
    assert_eq!(r.err(), Some(PollError::TitleTooLong));
    // both the option count and the title are bad: the count is reported first
    let r = l.create_poll(1, params([0; 8], &long, "d", &["a"], 0, 10));
    assert_eq!(r.err(), Some(PollError::NotEnoughOptions));
}

#[test]
fn created_poll_keeps_labels_and_order() {
    let mut l = Ledger::new();
    let labels = ["first", "second", "third", "fourth"];
    let key = l.create_poll(1, params([3; 8], "t", "d", &labels, 0, 10)).unwrap();
    let p = l.get_poll(&key).unwrap();
    assert_eq!(p.options.len(), 4);
    for (i, lab) in labels.iter().enumerate() {
        assert_eq!(p.options[i].label, *lab);
        assert_eq!(p.options[i].votes, 0);
    }
    assert_eq!(p.title, "t");
    assert_eq!(p.description, "d");
    assert_eq!(p.start_ts, 0);
    assert_eq!(p.end_ts, 10);
    assert!(!p.is_closed);
}

#[test]
fn one_creator_many_seeds() {
    let mut l = Ledger::new();
    let k1 = l.create_poll(1, params([1; 8], "one", "d", &["a", "b"], 0, 10)).unwrap();
    let k2 = l.create_poll(1, params([2; 8], "two", "d", &["c", "d"], 0, 10)).unwrap();
    assert!(!k1.matches(&k2));
    assert_eq!(l.get_poll(&k1).unwrap().title, "one");
    assert_eq!(l.get_poll(&k2).unwrap().title, "two");
}

#[test]
fn vote_window_is_inclusive_at_both_ends() {
    let mut l = Ledger::new();
    let key = l.create_poll(1, params([0; 8], "t", "d", &["a", "b"], 100, 200)).unwrap();
    assert!(vote(&mut l, &key, 10, 0, 100).is_ok());
    assert!(vote(&mut l, &key, 11, 0, 200).is_ok());
    assert_eq!(vote(&mut l, &key, 12, 0, 99).err(), Some(PollError::PollNotStarted));
    assert_eq!(vote(&mut l, &key, 13, 0, 201).err(), Some(PollError::PollEnded));
    assert_eq!(l.get_poll(&key).unwrap().options[0].votes, 2);
}

#[test]
fn end_instant_allows_both_voting_and_closing() {
    let mut l = Ledger::new();
    let key = l.create_poll(1, params([0; 8], "t", "d", &["a", "b"], 100, 200)).unwrap();
    // at exactly the window's end a vote still lands...
    assert!(vote(&mut l, &key, 10, 1, 200).is_ok());
    // ...and the creator may close at the same instant
    assert!(l.close_poll(&key, 1, 200).is_ok());
    assert_eq!(l.get_poll(&key).unwrap().options[1].votes, 1);
}

#[test]
fn vote_rejects_invalid_option_index() {
    let mut l = Ledger::new();
    let key = l.create_poll(1, params([0; 8], "t", "d", &["a", "b"], 0, 10)).unwrap();
    assert_eq!(vote(&mut l, &key, 10, 2, 5).err(), Some(PollError::InvalidOption));
    assert_eq!(vote(&mut l, &key, 10, 255, 5).err(), Some(PollError::InvalidOption));
    // the rejected voter still holds no record and may vote properly
    assert!(vote(&mut l, &key, 10, 1, 5).is_ok());
}

#[test]
fn vote_rejects_counter_overflow() {
    // a counter already at its maximum must reject rather than wrap
    let poll = Poll {
        creator: 1,
        seed: [0; 8],
        title: "t".to_string(),
        description: "d".to_string(),
        options: vec![
            VoteOption { label: "full".to_string(), votes: u64::MAX },
            VoteOption { label: "free".to_string(), votes: 0 },
        ],
        start_ts: 0,
        end_ts: 10,
        is_closed: false,
    };
    let mut l = Ledger { polls: vec![poll], records: Vec::new() };
    let key = PollKey { creator: 1, seed: [0; 8] };
    assert_eq!(vote(&mut l, &key, 10, 0, 5).err(), Some(PollError::VoteOverflow));
    assert_eq!(l.get_poll(&key).unwrap().options[0].votes, u64::MAX);
    // the other option still has headroom
    assert!(vote(&mut l, &key, 10, 1, 5).is_ok());
    assert_eq!(l.get_poll(&key).unwrap().options[1].votes, 1);
}

#[test]
fn successful_vote_raises_total_by_one_and_touches_one_poll() {
    let mut l = Ledger::new();
    let k1 = l.create_poll(1, params([1; 8], "t", "d", &["a", "b", "c"], 0, 10)).unwrap();
    let k2 = l.create_poll(2, params([2; 8], "t", "d", &["x", "y"], 0, 10)).unwrap();
    assert!(vote(&mut l, &k1, 10, 2, 5).is_ok());
    let p1 = l.get_poll(&k1).unwrap();
    let total: u64 = p1.options.iter().map(|o| o.votes).sum();
    assert_eq!(total, 1);
    assert_eq!(p1.options[2].votes, 1);
    // the other poll's counters are untouched
    let p2 = l.get_poll(&k2).unwrap();
    assert!(p2.options.iter().all(|o| o.votes == 0));
}

#[test]
fn duplicate_vote_leaves_counters_unchanged() {
    let mut l = Ledger::new();
    let key = l.create_poll(1, params([0; 8], "t", "d", &["a", "b"], 0, 10)).unwrap();
    assert!(vote(&mut l, &key, 10, 0, 5).is_ok());
    // trying a different option changes nothing either
    assert_eq!(vote(&mut l, &key, 10, 1, 6).err(), Some(PollError::AlreadyVoted));
    let p = l.get_poll(&key).unwrap();
    assert_eq!(p.options[0].votes, 1);
    assert_eq!(p.options[1].votes, 0);
    // the recorded choice is the first one
    let rec = l.get_vote_record(&key, 10).unwrap();
    assert_eq!(rec.selected_option, 0);
}

#[test]
fn distinct_voters_tally_separately() {
    let mut l = Ledger::new();
    let key = l.create_poll(1, params([0; 8], "t", "d", &["a", "b"], 0, 10)).unwrap();
    assert!(vote(&mut l, &key, 10, 0, 5).is_ok());
    assert!(vote(&mut l, &key, 11, 0, 5).is_ok());
    assert!(vote(&mut l, &key, 12, 1, 5).is_ok());
    let p = l.get_poll(&key).unwrap();
    assert_eq!(p.options[0].votes, 2);
    assert_eq!(p.options[1].votes, 1);
}

#[test]
fn one_voter_may_vote_on_many_polls() {
    let mut l = Ledger::new();
    let k1 = l.create_poll(1, params([1; 8], "t", "d", &["a", "b"], 0, 10)).unwrap();
    let k2 = l.create_poll(1, params([2; 8], "t", "d", &["a", "b"], 0, 10)).unwrap();
    assert!(vote(&mut l, &k1, 10, 0, 5).is_ok());
    assert!(vote(&mut l, &k2, 10, 1, 5).is_ok());
    assert_eq!(l.get_vote_record(&k1, 10).unwrap().selected_option, 0);
    assert_eq!(l.get_vote_record(&k2, 10).unwrap().selected_option, 1);
}

#[test]
fn close_requires_creator_and_ended_window() {
    let mut l = Ledger::new();
    let key = l.create_poll(5, params([0; 8], "t", "d", &["a", "b"], 0, 10)).unwrap();
    assert_eq!(l.close_poll(&key, 6, 20).err(), Some(PollError::Unauthorized));
    assert_eq!(l.close_poll(&key, 5, 9).err(), Some(PollError::PollStillActive));
    assert!(!l.get_poll(&key).unwrap().is_closed);
    assert!(l.close_poll(&key, 5, 10).is_ok());
    assert!(l.get_poll(&key).unwrap().is_closed);
}

#[test]
fn unauthorized_close_is_reported_before_timing() {
    let mut l = Ledger::new();
    let key = l.create_poll(5, params([0; 8], "t", "d", &["a", "b"], 0, 10)).unwrap();
    // a stranger asking too early is turned away as unauthorized, not as early
    assert_eq!(l.close_poll(&key, 6, 5).err(), Some(PollError::Unauthorized));
}

#[test]
fn status_is_derived_from_time_and_closed_flag() {
    let mut l = Ledger::new();
    let key = l.create_poll(1, params([0; 8], "t", "d", &["a", "b"], 100, 200)).unwrap();
    assert_eq!(l.get_poll(&key).unwrap().status(50), PollStatus::Scheduled);
    assert_eq!(l.get_poll(&key).unwrap().status(100), PollStatus::Open);
    assert_eq!(l.get_poll(&key).unwrap().status(200), PollStatus::Open);
    assert_eq!(l.get_poll(&key).unwrap().status(201), PollStatus::EndedUnclosed);
    assert!(l.close_poll(&key, 1, 250).is_ok());
    assert_eq!(l.get_poll(&key).unwrap().status(150), PollStatus::Closed);
    assert_eq!(l.get_poll(&key).unwrap().status(999), PollStatus::Closed);
}

#[test]
fn validation_predicates_measure_the_budgets() {
    assert!(poll::validate::title_ok(&"x".repeat(64)));
    assert!(!poll::validate::title_ok(&"x".repeat(65)));
    assert!(poll::validate::description_ok(&"x".repeat(256)));
    assert!(!poll::validate::description_ok(&"x".repeat(257)));
    assert!(poll::validate::label_ok(&"x".repeat(32)));
    assert!(!poll::validate::label_ok(&"é".repeat(17)));
    assert!(poll::validate::option_count_ok(2));
    assert!(poll::validate::option_count_ok(8));
    assert!(!poll::validate::option_count_ok(1));
    assert!(!poll::validate::option_count_ok(9));
    assert!(poll::validate::schedule_ok(5, 6));
    assert!(!poll::validate::schedule_ok(5, 5));
    assert_eq!(poll::validate::text_byte_len("été"), 5);
}

#[test]
fn storage_is_sized_for_the_worst_case() {
    assert_eq!(poll::state::POLL_SPACE, 750);
    assert_eq!(poll::state::VOTER_RECORD_SPACE, 74);
}

#[test]
fn errors_report_in_words() {
    assert_eq!(PollError::PollClosed.message(), "Poll is already closed.");
    assert_eq!(PollError::AlreadyVoted.message(), "This voter has already cast a vote.");
    assert_eq!(PollError::VoteOverflow.message(), "Vote counter overflow.");
    assert_eq!(PollError::Unauthorized.message(), "Only the poll creator may close it.");
}

#[test]
fn missing_records_are_reported_missing() {
    let l = Ledger::new();
    let key = PollKey { creator: 1, seed: [0; 8] };
    assert!(l.get_poll(&key).is_none());
    assert!(l.get_vote_record(&key, 10).is_none());
    assert!(!l.has_vote_record(&key, 10));
}
