use poll_ledger::ledger::{
    add_candidate, delete_candidate, delete_poll, initialize_poll, vote, AddCandidate,
    DeleteCandidate, DeletePoll, Identity, InitializePoll, PollError, Store, Vote,
};

fn id(b: u8) -> Identity {
    Identity { bytes: [b; 32] }
}

fn creator() -> Identity {
    id(1)
}

fn store_with_poll(tally: bool, poll_id: u64) -> Store {
    let mut s = Store::new(tally);
    let ctx = InitializePoll { signer: creator(), now: 100 };
    assert_eq!(initialize_poll(&mut s, &ctx, poll_id, String::from("Best fruit?"), 150, 300), Ok(()));
    s
}

fn add(s: &mut Store, poll_id: u64, candidate_id: u64, name: &str) -> Result<(), PollError> {
    add_candidate(s, &AddCandidate { signer: creator() }, poll_id, candidate_id, String::from(name))
}

#[test]
fn create_then_get_has_no_candidates() {
    let s = store_with_poll(false, 7);
    let p = s.get_poll(7).unwrap();
    assert_eq!(p.poll_id, 7);
    assert_eq!(p.question, "Best fruit?");
    assert_eq!(p.poll_start, 150);
    assert_eq!(p.poll_end, 300);
    assert_eq!(p.authority, creator());
    assert_eq!(p.total_candidates, 0);
    assert_eq!(p.total_votes, 0);
    assert!(s.get_poll(8).is_none());
}

#[test]
fn create_with_inverted_window_fails() {
    let mut s = Store::new(false);
    let ctx = InitializePoll { signer: creator(), now: 0 };
    assert_eq!(
        initialize_poll(&mut s, &ctx, 1, String::from("q"), 500, 500),
        Err(PollError::InvalidWindow)
    );
    assert_eq!(
        initialize_poll(&mut s, &ctx, 1, String::from("q"), 600, 500),
        Err(PollError::InvalidWindow)
    );
    // the window is checked before the question's length and the id
    let long = "x".repeat(300);
    assert_eq!(initialize_poll(&mut s, &ctx, 1, long, 600, 500), Err(PollError::InvalidWindow));
    assert!(s.get_poll(1).is_none());
}

#[test]
fn create_with_closed_window_fails() {
    let mut s = Store::new(false);
    let ctx = InitializePoll { signer: creator(), now: 300 };
    assert_eq!(
        initialize_poll(&mut s, &ctx, 1, String::from("q"), 100, 300),
        Err(PollError::WindowAlreadyClosed)
    );
    let ctx = InitializePoll { signer: creator(), now: 299 };
    assert_eq!(initialize_poll(&mut s, &ctx, 1, String::from("q"), 100, 300), Ok(()));
}

#[test]
fn create_duplicate_poll_fails() {
    let mut s = store_with_poll(false, 42);
    let ctx = InitializePoll { signer: id(9), now: 100 };
    assert_eq!(
        initialize_poll(&mut s, &ctx, 42, String::from("Other?"), 110, 120),
        Err(PollError::DuplicatePoll)
    );
    assert_eq!(s.get_poll(42).unwrap().question, "Best fruit?");
}

#[test]
fn question_length_limit() {
    let mut s = Store::new(false);
    let ctx = InitializePoll { signer: creator(), now: 0 };
    assert_eq!(initialize_poll(&mut s, &ctx, 1, "q".repeat(200), 1, 2), Ok(()));
    assert_eq!(
        initialize_poll(&mut s, &ctx, 2, "q".repeat(201), 1, 2),
        Err(PollError::FieldTooLong)
    );
    // the limit counts bytes, not characters
    assert_eq!(
        initialize_poll(&mut s, &ctx, 3, "é".repeat(101), 1, 2),
        Err(PollError::FieldTooLong)
    );
}

#[test]
fn add_candidate_counts_once() {
    let mut s = store_with_poll(false, 5);
    assert_eq!(add(&mut s, 5, 1, "Alice"), Ok(()));
    assert_eq!(s.get_poll(5).unwrap().total_candidates, 1);
    let c = s.get_candidate(5, 1).unwrap();
    assert_eq!(c.name, "Alice");
    assert_eq!(c.poll_id, 5);
    assert_eq!(c.candidate_id, 1);
    assert_eq!(c.votes, 0);
    assert_eq!(add(&mut s, 5, 1, "Bob"), Err(PollError::DuplicateCandidate));
    assert_eq!(s.get_poll(5).unwrap().total_candidates, 1);
    assert_eq!(s.get_candidate(5, 1).unwrap().name, "Alice");
    assert_eq!(add(&mut s, 5, 2, "Bob"), Ok(()));
    assert_eq!(s.get_poll(5).unwrap().total_candidates, 2);
}

#[test]
fn add_candidate_errors() {
    let mut s = store_with_poll(false, 5);
    assert_eq!(add(&mut s, 6, 1, "Alice"), Err(PollError::NotFound));
    assert_eq!(add(&mut s, 5, 1, &"n".repeat(101)), Err(PollError::FieldTooLong));
    assert_eq!(add(&mut s, 5, 1, &"n".repeat(100)), Ok(()));
}

#[test]
fn candidate_ids_are_scoped_per_poll() {
    let mut s = store_with_poll(false, 5);
    let ctx = InitializePoll { signer: creator(), now: 100 };
    assert_eq!(initialize_poll(&mut s, &ctx, 6, String::from("q"), 150, 300), Ok(()));
    assert_eq!(add(&mut s, 5, 1, "Alice"), Ok(()));
    assert_eq!(add(&mut s, 6, 1, "Alice"), Ok(()));
    assert_eq!(s.get_poll(6).unwrap().total_candidates, 1);
}

#[test]
fn vote_twice_fails() {
    let mut s = store_with_poll(true, 3);
    assert_eq!(add(&mut s, 3, 1, "Alice"), Ok(()));
    let ctx = Vote { voter: id(7), now: 200 };
    assert_eq!(vote(&mut s, &ctx, 3, 1), Ok(()));
    assert_eq!(s.get_candidate(3, 1).unwrap().votes, 1);
    assert_eq!(s.get_poll(3).unwrap().total_votes, 1);
    assert_eq!(vote(&mut s, &ctx, 3, 1), Err(PollError::AlreadyVoted));
    assert_eq!(s.get_candidate(3, 1).unwrap().votes, 1);
    assert_eq!(s.get_poll(3).unwrap().total_votes, 1);
    let rec = s.get_vote_record(3, &id(7)).unwrap();
    assert!(rec.has_voted);
    assert_eq!(rec.candidate_id, 1);
    assert_eq!(rec.poll_id, 3);
    assert!(s.get_vote_record(3, &id(8)).is_none());
}

#[test]
fn vote_for_another_candidate_after_voting_fails() {
    let mut s = store_with_poll(true, 3);
    assert_eq!(add(&mut s, 3, 1, "Alice"), Ok(()));
    assert_eq!(add(&mut s, 3, 2, "Bob"), Ok(()));
    let ctx = Vote { voter: id(7), now: 200 };
    assert_eq!(vote(&mut s, &ctx, 3, 1), Ok(()));
    assert_eq!(vote(&mut s, &ctx, 3, 2), Err(PollError::AlreadyVoted));
    assert_eq!(s.get_candidate(3, 2).unwrap().votes, 0);
    assert_eq!(vote(&mut s, &Vote { voter: id(8), now: 200 }, 3, 2), Ok(()));
    assert_eq!(s.get_poll(3).unwrap().total_votes, 2);
}

#[test]
fn vote_without_tally_keeps_counts() {
    let mut s = store_with_poll(false, 3);
    assert!(!s.is_tallying());
    assert_eq!(add(&mut s, 3, 1, "Alice"), Ok(()));
    let ctx = Vote { voter: id(7), now: 200 };
    assert_eq!(vote(&mut s, &ctx, 3, 1), Ok(()));
    assert_eq!(s.get_candidate(3, 1).unwrap().votes, 0);
    assert_eq!(s.get_poll(3).unwrap().total_votes, 0);
    assert!(s.get_vote_record(3, &id(7)).is_some());
    assert_eq!(vote(&mut s, &ctx, 3, 1), Err(PollError::AlreadyVoted));
}

#[test]
fn vote_outside_window_fails() {
    let mut s = store_with_poll(true, 3);
    assert_eq!(add(&mut s, 3, 1, "Alice"), Ok(()));
    assert_eq!(vote(&mut s, &Vote { voter: id(7), now: 149 }, 3, 1), Err(PollError::VotingClosed));
    assert_eq!(vote(&mut s, &Vote { voter: id(7), now: 301 }, 3, 1), Err(PollError::VotingClosed));
    assert!(s.get_vote_record(3, &id(7)).is_none());
    // both ends of the window are open for voting
    assert_eq!(vote(&mut s, &Vote { voter: id(7), now: 150 }, 3, 1), Ok(()));
    assert_eq!(vote(&mut s, &Vote { voter: id(8), now: 300 }, 3, 1), Ok(()));
    assert_eq!(s.get_candidate(3, 1).unwrap().votes, 2);
}

#[test]
fn vote_errors() {
    let mut s = store_with_poll(true, 3);
    assert_eq!(add(&mut s, 3, 1, "Alice"), Ok(()));
    let ctx = Vote { voter: id(7), now: 200 };
    assert_eq!(vote(&mut s, &ctx, 4, 1), Err(PollError::NotFound));
    assert_eq!(vote(&mut s, &ctx, 3, 2), Err(PollError::InvalidCandidate));
}

#[test]
fn delete_poll_needs_no_candidates() {
    let mut s = store_with_poll(false, 9);
    assert_eq!(add(&mut s, 9, 1, "Alice"), Ok(()));
    let del = DeletePoll { signer: creator() };
    assert_eq!(delete_poll(&mut s, &del, 9), Err(PollError::CandidatesExist));
    let dc = DeleteCandidate { signer: creator() };
    assert_eq!(delete_candidate(&mut s, &dc, 9, 1), Ok(()));
    assert_eq!(s.get_poll(9).unwrap().total_candidates, 0);
    assert!(s.get_candidate(9, 1).is_none());
    assert_eq!(delete_poll(&mut s, &del, 9), Ok(()));
    assert!(s.get_poll(9).is_none());
    assert_eq!(delete_poll(&mut s, &del, 9), Err(PollError::NotFound));
}

#[test]
fn delete_candidate_errors() {
    let mut s = store_with_poll(false, 9);
    let dc = DeleteCandidate { signer: creator() };
    assert_eq!(delete_candidate(&mut s, &dc, 9, 1), Err(PollError::NotFound));
    assert_eq!(delete_candidate(&mut s, &dc, 10, 1), Err(PollError::NotFound));
    assert_eq!(s.get_poll(9).unwrap().total_candidates, 0);
}

#[test]
fn strangers_are_unauthorized() {
    let mut s = store_with_poll(false, 9);
    assert_eq!(add(&mut s, 9, 1, "Alice"), Ok(()));
    let stranger = id(2);
    assert_eq!(
        add_candidate(&mut s, &AddCandidate { signer: stranger }, 9, 2, String::from("Eve")),
        Err(PollError::Unauthorized)
    );
    assert_eq!(
        delete_candidate(&mut s, &DeleteCandidate { signer: stranger }, 9, 1),
        Err(PollError::Unauthorized)
    );
    assert_eq!(delete_poll(&mut s, &DeletePoll { signer: stranger }, 9), Err(PollError::Unauthorized));
    assert_eq!(s.get_poll(9).unwrap().total_candidates, 1);
    assert!(s.get_candidate(9, 1).is_some());
    assert!(s.get_candidate(9, 2).is_none());
}

#[test]
fn votes_outlive_a_deleted_poll() {
    let mut s = store_with_poll(true, 4);
    assert_eq!(add(&mut s, 4, 1, "Alice"), Ok(()));
    assert_eq!(vote(&mut s, &Vote { voter: id(7), now: 200 }, 4, 1), Ok(()));
    let dc = DeleteCandidate { signer: creator() };
    assert_eq!(delete_candidate(&mut s, &dc, 4, 1), Ok(()));
    assert_eq!(delete_poll(&mut s, &DeletePoll { signer: creator() }, 4), Ok(()));
    assert!(s.get_vote_record(4, &id(7)).is_some());
    let ctx = InitializePoll { signer: creator(), now: 100 };
    assert_eq!(initialize_poll(&mut s, &ctx, 4, String::from("Again?"), 150, 300), Ok(()));
    assert_eq!(add(&mut s, 4, 1, "Alice"), Ok(()));
    assert_eq!(vote(&mut s, &Vote { voter: id(7), now: 200 }, 4, 1), Err(PollError::AlreadyVoted));
}

#[test]
fn identity_equality_compares_all_bytes() {
    let mut a = [3u8; 32];
    let b = Identity { bytes: a };
    a[31] = 4;
    assert_ne!(Identity { bytes: a }, b);
    assert_eq!(Identity { bytes: [3u8; 32] }, b);
}

#[test]
fn clock_reads_fail_off_chain_without_change() {
    let mut s = store_with_poll(true, 3);
    assert_eq!(add(&mut s, 3, 1, "Alice"), Ok(()));
    assert_eq!(
        poll_ledger::ledger::initialize_poll_now(&mut s, creator(), 4, String::from("q"), 1, u64::MAX),
        None
    );
    assert!(s.get_poll(4).is_none());
    assert_eq!(poll_ledger::ledger::vote_now(&mut s, id(7), 3, 1), None);
    assert!(s.get_vote_record(3, &id(7)).is_none());
}
