//! Laws that relate the store's operations to each other.
use vstd::prelude::*;
use vstd::utf8::encode_utf8;
use crate::ledger::{
    add_candidate_post, delete_candidate_post, delete_poll_post, initialize_poll_post, vote_post,
    AddCandidate, DeleteCandidate, DeletePoll, InitializePoll, PollError, Store, Vote,
    MAX_NAME_LEN, MAX_QUESTION_LEN,
};

verus! {

/// A poll whose window is well ordered and ends after the moment of
/// creation is created, with no candidates, provided its question is short
/// enough and its id is free.
pub proof fn lemma_create_valid_window(
    s: Store,
    t: Store,
    ctx: InitializePoll,
    poll_id: u64,
    question: String,
    poll_start: u64,
    poll_end: u64,
    r: Result<(), PollError>,
)
    requires
        initialize_poll_post(s, t, ctx, poll_id, question, poll_start, poll_end, r),
        poll_start < poll_end,
        ctx.now < poll_end,
        encode_utf8(question@).len() <= MAX_QUESTION_LEN,
        !s.polls().contains_key(poll_id),
    ensures
        r is Ok,
        t.polls().contains_key(poll_id),
        t.polls()[poll_id].total_candidates == 0,
{
}

/// Creating a poll whose start is not before its end fails with
/// `InvalidWindow`, whatever the other inputs.
pub proof fn lemma_create_inverted_window(
    s: Store,
    t: Store,
    ctx: InitializePoll,
    poll_id: u64,
    question: String,
    poll_start: u64,
    poll_end: u64,
    r: Result<(), PollError>,
)
    requires
        initialize_poll_post(s, t, ctx, poll_id, question, poll_start, poll_end, r),
        poll_start >= poll_end,
    ensures
        r == Err::<(), PollError>(PollError::InvalidWindow),
        t == s,
{
}

/// Once a poll is created, creating another with the same id fails with
/// `DuplicatePoll` (where the second request is otherwise acceptable).
pub proof fn lemma_create_duplicate(
    s0: Store,
    s1: Store,
    s2: Store,
    ctx1: InitializePoll,
    ctx2: InitializePoll,
    poll_id: u64,
    q1: String,
    q2: String,
    start1: u64,
    end1: u64,
    start2: u64,
    end2: u64,
    r1: Result<(), PollError>,
    r2: Result<(), PollError>,
)
    requires
        initialize_poll_post(s0, s1, ctx1, poll_id, q1, start1, end1, r1),
        r1 is Ok,
        initialize_poll_post(s1, s2, ctx2, poll_id, q2, start2, end2, r2),
        start2 < end2,
        ctx2.now < end2,
        encode_utf8(q2@).len() <= MAX_QUESTION_LEN,
    ensures
        r2 == Err::<(), PollError>(PollError::DuplicatePoll),
        s2 == s1,
{
}

/// Adding a first candidate to a poll makes its candidate count exactly 1;
/// adding the same candidate id again, by the creator, fails with
/// `DuplicateCandidate` and leaves the count at 1.
pub proof fn lemma_add_candidate_once(
    s0: Store,
    s1: Store,
    s2: Store,
    ctx1: AddCandidate,
    ctx2: AddCandidate,
    poll_id: u64,
    candidate_id: u64,
    name1: String,
    name2: String,
    r1: Result<(), PollError>,
    r2: Result<(), PollError>,
)
    requires
        s0.polls().contains_key(poll_id),
        s0.polls()[poll_id].total_candidates == 0,
        add_candidate_post(s0, s1, ctx1, poll_id, candidate_id, name1, r1),
        r1 is Ok,
        add_candidate_post(s1, s2, ctx2, poll_id, candidate_id, name2, r2),
        ctx2.signer.same(ctx1.signer),
        encode_utf8(name2@).len() <= MAX_NAME_LEN,
    ensures
        s1.polls()[poll_id].total_candidates == 1,
        r2 == Err::<(), PollError>(PollError::DuplicateCandidate),
        s2.polls()[poll_id].total_candidates == 1,
{
    assert(s1.candidates()[poll_id] == s1.candidates_of(poll_id));
}

/// A voter's second vote in a poll, cast within the window, fails with
/// `AlreadyVoted`; in a tallying store the candidate's first vote makes
/// its count 1, and the refused one leaves it there.
pub proof fn lemma_vote_once(
    s0: Store,
    s1: Store,
    s2: Store,
    ctx1: Vote,
    ctx2: Vote,
    poll_id: u64,
    candidate_id: u64,
    r1: Result<(), PollError>,
    r2: Result<(), PollError>,
)
    requires
        vote_post(s0, s1, ctx1, poll_id, candidate_id, r1),
        r1 is Ok,
        vote_post(s1, s2, ctx2, poll_id, candidate_id, r2),
        ctx2.voter.same(ctx1.voter),
        s0.polls()[poll_id].poll_start <= ctx2.now <= s0.polls()[poll_id].poll_end,
    ensures
        r2 == Err::<(), PollError>(PollError::AlreadyVoted),
        s2 == s1,
        s0.tallies() && s0.candidates_of(poll_id)[candidate_id].votes == 0 ==> {
            &&& s1.candidates_of(poll_id)[candidate_id].votes == 1
            &&& s2.candidates_of(poll_id)[candidate_id].votes == 1
        },
{
    assert(s1.candidates()[poll_id] == s1.candidates_of(poll_id));
    assert(s0.candidates()[poll_id] == s0.candidates_of(poll_id));
    assert(s1.ballots()[poll_id] == s1.ballots_of(poll_id));
    assert(s0.ballots()[poll_id] == s0.ballots_of(poll_id));
    let last = s1.ballots_of(poll_id).len() - 1;
    assert(s1.ballots_of(poll_id)[last].voter.same(ctx2.voter));
}

/// A vote cast before the window opens or after it closes fails with
/// `VotingClosed` and changes nothing, whoever the voter, for any candidate
/// of the poll.
pub proof fn lemma_vote_outside_window(
    s: Store,
    t: Store,
    ctx: Vote,
    poll_id: u64,
    candidate_id: u64,
    r: Result<(), PollError>,
)
    requires
        s.wf(),
        vote_post(s, t, ctx, poll_id, candidate_id, r),
        s.polls().contains_key(poll_id),
        s.candidates_of(poll_id).contains_key(candidate_id),
        ctx.now < s.polls()[poll_id].poll_start || ctx.now > s.polls()[poll_id].poll_end,
    ensures
        r == Err::<(), PollError>(PollError::VotingClosed),
        t == s,
{
    s.lemma_candidate_belongs(poll_id, candidate_id);
}

/// Deleting a poll that still has candidates, by its creator, fails with
/// `CandidatesExist`.
pub proof fn lemma_delete_poll_with_candidates(
    s: Store,
    t: Store,
    ctx: DeletePoll,
    poll_id: u64,
    r: Result<(), PollError>,
)
    requires
        delete_poll_post(s, t, ctx, poll_id, r),
        s.polls().contains_key(poll_id),
        s.polls()[poll_id].authority.same(ctx.signer),
        s.polls()[poll_id].total_candidates > 0,
    ensures
        r == Err::<(), PollError>(PollError::CandidatesExist),
        t == s,
{
}

/// Once the last candidate of a poll is deleted, its creator deletes the
/// poll, which is then no longer found.
pub proof fn lemma_delete_last_candidate_then_poll(
    s0: Store,
    s1: Store,
    s2: Store,
    ctx1: DeleteCandidate,
    ctx2: DeletePoll,
    poll_id: u64,
    candidate_id: u64,
    r1: Result<(), PollError>,
    r2: Result<(), PollError>,
)
    requires
        s0.polls().contains_key(poll_id),
        s0.polls()[poll_id].total_candidates == 1,
        delete_candidate_post(s0, s1, ctx1, poll_id, candidate_id, r1),
        r1 is Ok,
        delete_poll_post(s1, s2, ctx2, poll_id, r2),
        s0.polls()[poll_id].authority.same(ctx2.signer),
    ensures
        r2 is Ok,
        !s2.polls().contains_key(poll_id),
{
}

/// Adding a candidate on behalf of anyone but the poll's creator fails with
/// `Unauthorized` and changes nothing.
pub proof fn lemma_add_candidate_by_stranger(
    s: Store,
    t: Store,
    ctx: AddCandidate,
    poll_id: u64,
    candidate_id: u64,
    name: String,
    r: Result<(), PollError>,
)
    requires
        add_candidate_post(s, t, ctx, poll_id, candidate_id, name, r),
        s.polls().contains_key(poll_id),
        !s.polls()[poll_id].authority.same(ctx.signer),
    ensures
        r == Err::<(), PollError>(PollError::Unauthorized),
        t == s,
{
}

/// Deleting a candidate on behalf of anyone but the poll's creator fails
/// with `Unauthorized` and changes nothing.
pub proof fn lemma_delete_candidate_by_stranger(
    s: Store,
    t: Store,
    ctx: DeleteCandidate,
    poll_id: u64,
    candidate_id: u64,
    r: Result<(), PollError>,
)
    requires
        delete_candidate_post(s, t, ctx, poll_id, candidate_id, r),
        s.polls().contains_key(poll_id),
        !s.polls()[poll_id].authority.same(ctx.signer),
    ensures
        r == Err::<(), PollError>(PollError::Unauthorized),
        t == s,
{
}

/// Deleting a poll on behalf of anyone but its creator fails with
/// `Unauthorized` and changes nothing.
pub proof fn lemma_delete_poll_by_stranger(
    s: Store,
    t: Store,
    ctx: DeletePoll,
    poll_id: u64,
    r: Result<(), PollError>,
)
    requires
        delete_poll_post(s, t, ctx, poll_id, r),
        s.polls().contains_key(poll_id),
        !s.polls()[poll_id].authority.same(ctx.signer),
    ensures
        r == Err::<(), PollError>(PollError::Unauthorized),
        t == s,
{
}

} // verus!
