//! The record types of a poll and the keyed store that holds them.
use std::collections::HashMap;
use vstd::prelude::*;
use vstd::utf8::encode_utf8;

verus! {

broadcast use vstd::std_specs::hash::group_hash_axioms;

/// The longest accepted poll question, in UTF-8 bytes.
pub const MAX_QUESTION_LEN: usize = 200;

/// The longest accepted candidate name, in UTF-8 bytes.
pub const MAX_NAME_LEN: usize = 100;

/// The identity of an account: its 32-byte public key.
#[derive(Clone, Copy, Debug)]
pub struct Identity {
    pub bytes: [u8; 32],
}

impl Identity {
    /// Two identities are the same account when their key bytes agree.
    pub open spec fn same(self, o: Identity) -> bool {
        self.bytes@ == o.bytes@
    }
}

impl PartialEq for Identity {
    fn eq(&self, o: &Identity) -> (r: bool)
        ensures
            r == self.same(*o),
    {
        let mut i: usize = 0;
        while i < 32
            invariant
                i <= 32,
                self.bytes@.len() == 32,
                o.bytes@.len() == 32,
                forall|j: int| 0 <= j < i ==> self.bytes@[j] == o.bytes@[j],
            decreases 32 - i,
        {
            if self.bytes[i] != o.bytes[i] {
                return false;
            }
            i = i + 1;
        }
        assert(self.bytes@ =~= o.bytes@);
        true
    }
}

impl Eq for Identity {
}

impl vstd::std_specs::cmp::PartialEqSpecImpl for Identity {
    open spec fn obeys_eq_spec() -> bool {
        true
    }

    open spec fn eq_spec(&self, o: &Identity) -> bool {
        self.same(*o)
    }
}

/// Why an operation on the store was refused.
#[derive(Clone, Copy, PartialEq, Eq, Structural, Debug)]
pub enum PollError {
    InvalidWindow,
    WindowAlreadyClosed,
    VotingClosed,
    AlreadyVoted,
    InvalidCandidate,
    NotFound,
    DuplicatePoll,
    DuplicateCandidate,
    Unauthorized,
    CandidatesExist,
    FieldTooLong,
}

/// A question with its voting window and bookkeeping counters.
pub struct Poll {
    pub poll_id: u64,
    pub question: String,
    pub poll_start: u64,
    pub poll_end: u64,
    pub authority: Identity,
    pub total_candidates: u64,
    pub total_votes: u64,
}

/// One selectable option of a poll.
pub struct Candidate {
    pub candidate_id: u64,
    pub poll_id: u64,
    pub name: String,
    pub votes: u64,
}

/// The permanent witness that a voter has voted in a poll.
pub struct VoteRecord {
    pub has_voted: bool,
    pub candidate_id: u64,
    pub poll_id: u64,
    pub voter: Identity,
}

/// The keyed store of all records.
///
/// A poll is keyed by its id, a candidate by its poll's id and its own id,
/// and a vote record by its poll's id and its voter. Vote records are never
/// removed: they outlive the poll they were cast in.
pub struct Store {
    polls: HashMap<u64, Poll>,
    candidates: HashMap<u64, HashMap<u64, Candidate>>,
    ballots: HashMap<u64, Vec<VoteRecord>>,
    tally: bool,
}

/// Whether `voter` holds a record among `ballots`.
pub open spec fn has_voted(ballots: Seq<VoteRecord>, voter: Identity) -> bool {
    exists|i: int| 0 <= i < ballots.len() && (#[trigger] ballots[i]).voter.same(voter)
}

impl Store {
    /// The polls, by id.
    pub closed spec fn polls(&self) -> Map<u64, Poll> {
        self.polls@
    }

    /// The candidates of poll `p`, by candidate id.
    pub closed spec fn candidates_of(&self, p: u64) -> Map<u64, Candidate> {
        if self.candidates@.contains_key(p) {
            self.candidates@[p]@
        } else {
            Map::empty()
        }
    }

    /// The vote records cast in poll `p`, oldest first.
    pub closed spec fn ballots_of(&self, p: u64) -> Seq<VoteRecord> {
        if self.ballots@.contains_key(p) {
            self.ballots@[p]@
        } else {
            Seq::empty()
        }
    }

    /// The candidates of every poll id.
    pub open spec fn candidates(&self) -> Map<u64, Map<u64, Candidate>> {
        Map::new(|p: u64| true, |p: u64| self.candidates_of(p))
    }

    /// The vote records of every poll id.
    pub open spec fn ballots(&self) -> Map<u64, Seq<VoteRecord>> {
        Map::new(|p: u64| true, |p: u64| self.ballots_of(p))
    }

    /// Whether casting a vote also counts it on the candidate and the poll.
    pub closed spec fn tallies(&self) -> bool {
        self.tally
    }

    /// The store's invariant: records sit under their own keys, every
    /// candidate belongs to a poll that exists, each poll's candidate count
    /// is the number of its candidates, and no tally exceeds the number of
    /// vote records that could have produced it.
    pub closed spec fn wf(&self) -> bool {
        &&& forall|p: u64| #[trigger]
            self.polls@.contains_key(p) ==> {
                &&& self.polls@[p].poll_id == p
                &&& self.polls@[p].total_candidates == self.candidates_of(p).len()
                &&& self.polls@[p].total_votes <= self.ballots_of(p).len()
            }
        &&& forall|p: u64, c: u64| #[trigger]
            self.candidates_of(p).contains_key(c) ==> {
                &&& self.polls@.contains_key(p)
                &&& self.candidates_of(p)[c].poll_id == p
                &&& self.candidates_of(p)[c].candidate_id == c
                &&& self.candidates_of(p)[c].votes <= self.polls@[p].total_votes
            }
    }

    /// In a well-formed store, a candidate refers back to the poll it is
    /// kept under.
    pub proof fn lemma_candidate_belongs(&self, poll_id: u64, candidate_id: u64)
        requires
            self.wf(),
            self.candidates_of(poll_id).contains_key(candidate_id),
        ensures
            self.candidates_of(poll_id)[candidate_id].poll_id == poll_id,
            self.polls().contains_key(poll_id),
    {
    }

    /// Poll `poll_id`, if it exists.
    pub fn get_poll(&self, poll_id: u64) -> (r: Option<&Poll>)
        ensures
            match r {
                Some(p) => self.polls().contains_key(poll_id) && *p == self.polls()[poll_id],
                None => !self.polls().contains_key(poll_id),
            },
    {
        self.polls.get(&poll_id)
    }

    /// Candidate `candidate_id` of poll `poll_id`, if it exists.
    pub fn get_candidate(&self, poll_id: u64, candidate_id: u64) -> (r: Option<&Candidate>)
        ensures
            match r {
                Some(c) => self.candidates_of(poll_id).contains_key(candidate_id) && *c
                    == self.candidates_of(poll_id)[candidate_id],
                None => !self.candidates_of(poll_id).contains_key(candidate_id),
            },
    {
        match self.candidates.get(&poll_id) {
            Some(m) => m.get(&candidate_id),
            None => None,
        }
    }

    /// The record of `voter`'s vote in poll `poll_id`, if there is one.
    pub fn get_vote_record(&self, poll_id: u64, voter: &Identity) -> (r: Option<&VoteRecord>)
        ensures
            match r {
                Some(v) => v.voter.same(*voter) && exists|i: int|
                    0 <= i < self.ballots_of(poll_id).len() && *v == #[trigger] self.ballots_of(
                        poll_id,
                    )[i],
                None => !has_voted(self.ballots_of(poll_id), *voter),
            },
    {
        match self.ballots.get(&poll_id) {
            Some(log) => {
                assert(log@ == self.ballots_of(poll_id));
                match find_voter(log, voter) {
                    Some(i) => {
                        assert(log@[i as int] == self.ballots_of(poll_id)[i as int]);
                        Some(&log[i])
                    },
                    None => None,
                }
            },
            None => None,
        }
    }

    /// Whether casting a vote also counts it on the candidate and the poll.
    pub fn is_tallying(&self) -> (r: bool)
        ensures
            r == self.tallies(),
    {
        self.tally
    }

    /// An empty store; `tally` says whether votes are counted on the
    /// candidate and the poll.
    pub fn new(tally: bool) -> (r: Store)
        ensures
            r.wf(),
            r.polls() == Map::<u64, Poll>::empty(),
            r.candidates() == Map::new(|p: u64| true, |p: u64| Map::<u64, Candidate>::empty()),
            r.ballots() == Map::new(|p: u64| true, |p: u64| Seq::<VoteRecord>::empty()),
            r.tallies() == tally,
    {
        let r = Store {
            polls: HashMap::new(),
            candidates: HashMap::new(),
            ballots: HashMap::new(),
            tally,
        };
        assert(r.candidates() =~= Map::new(|p: u64| true, |p: u64| Map::<u64, Candidate>::empty()));
        assert(r.ballots() =~= Map::new(|p: u64| true, |p: u64| Seq::<VoteRecord>::empty()));
        r
    }
}

/// The signer of a poll's creation and the clock reading at that moment.
pub struct InitializePoll {
    pub signer: Identity,
    pub now: u64,
}

/// The signer of a candidate's creation.
pub struct AddCandidate {
    pub signer: Identity,
}

/// The voter and the clock reading at the moment of voting.
pub struct Vote {
    pub voter: Identity,
    pub now: u64,
}

/// The signer of a poll's deletion.
pub struct DeletePoll {
    pub signer: Identity,
}

/// The signer of a candidate's deletion.
pub struct DeleteCandidate {
    pub signer: Identity,
}

/// A map with no key has no length, and a finite map with length zero has no key.
proof fn lemma_len_zero_no_key(m: Map<u64, Candidate>)
    requires
        m.dom().finite(),
    ensures
        m.len() == 0 <==> forall|k: u64| !m.contains_key(k),
{
    if m.len() == 0 {
        assert forall|k: u64| !m.contains_key(k) by {
            if m.contains_key(k) {
                assert(m.dom().len() == m.dom().remove(k).len() + 1);
            }
        }
    }
    if forall|k: u64| !m.contains_key(k) {
        assert(m.dom() =~= Set::empty());
    }
}

/// Creating a poll: on success the store changed exactly so; on a refusal it is
/// unchanged and the refusal is the one its rules name.
pub open spec fn initialize_poll_post(
    s: Store,
    t: Store,
    ctx: InitializePoll,
    poll_id: u64,
    question: String,
    poll_start: u64,
    poll_end: u64,
    r: Result<(), PollError>,
) -> bool {
    match r {
        Ok(()) => {
            &&& s.initialize_poll_error(
                ctx.now,
                poll_id,
                question@,
                poll_start,
                poll_end,
            ) is None
            &&& t.polls() == s.polls().insert(
                poll_id,
                (Poll {
                    poll_id,
                    question,
                    poll_start,
                    poll_end,
                    authority: ctx.signer,
                    total_candidates: 0,
                    total_votes: 0,
                }),
            )
            &&& t.candidates() == s.candidates()
            &&& t.ballots() == s.ballots()
            &&& t.tallies() == s.tallies()
        },
        Err(e) => {
            &&& s.initialize_poll_error(
                ctx.now,
                poll_id,
                question@,
                poll_start,
                poll_end,
            ) == Some(e)
            &&& t == s
        },
    }
}

/// Adding a candidate: on success the store changed exactly so; on a refusal it is
/// unchanged and the refusal is the one its rules name.
pub open spec fn add_candidate_post(
    s: Store,
    t: Store,
    ctx: AddCandidate,
    poll_id: u64,
    candidate_id: u64,
    candidate_name: String,
    r: Result<(), PollError>,
) -> bool {
    match r {
        Ok(()) => {
            &&& s.add_candidate_error(
                ctx.signer,
                poll_id,
                candidate_id,
                candidate_name@,
            ) is None
            &&& t.polls() == s.polls().insert(
                poll_id,
                (Poll {
                    total_candidates: (s.polls()[poll_id].total_candidates + 1) as u64,
                    ..s.polls()[poll_id]
                }),
            )
            &&& t.candidates() == s.candidates().insert(
                poll_id,
                s.candidates_of(poll_id).insert(
                    candidate_id,
                    (Candidate { candidate_id, poll_id, name: candidate_name, votes: 0 }),
                ),
            )
            &&& t.ballots() == s.ballots()
            &&& t.tallies() == s.tallies()
        },
        Err(e) => {
            &&& s.add_candidate_error(
                ctx.signer,
                poll_id,
                candidate_id,
                candidate_name@,
            ) == Some(e)
            &&& t == s
        },
    }
}

/// Deleting a candidate: on success the store changed exactly so; on a refusal it is
/// unchanged and the refusal is the one its rules name.
pub open spec fn delete_candidate_post(
    s: Store,
    t: Store,
    ctx: DeleteCandidate,
    poll_id: u64,
    candidate_id: u64,
    r: Result<(), PollError>,
) -> bool {
    match r {
        Ok(()) => {
            &&& s.delete_candidate_error(ctx.signer, poll_id, candidate_id) is None
            &&& t.polls() == s.polls().insert(
                poll_id,
                (Poll {
                    total_candidates: (s.polls()[poll_id].total_candidates - 1) as u64,
                    ..s.polls()[poll_id]
                }),
            )
            &&& t.candidates() == s.candidates().insert(
                poll_id,
                s.candidates_of(poll_id).remove(candidate_id),
            )
            &&& t.ballots() == s.ballots()
            &&& t.tallies() == s.tallies()
        },
        Err(e) => {
            &&& s.delete_candidate_error(ctx.signer, poll_id, candidate_id) == Some(e)
            &&& t == s
        },
    }
}

/// Casting a vote: on success the store changed exactly so; on a refusal it is
/// unchanged and the refusal is the one its rules name.
pub open spec fn vote_post(
    s: Store,
    t: Store,
    ctx: Vote,
    poll_id: u64,
    candidate_id: u64,
    r: Result<(), PollError>,
) -> bool {
    match r {
        Ok(()) => {
            &&& s.vote_error(ctx.voter, ctx.now, poll_id, candidate_id) is None
            &&& t.ballots() == s.ballots().insert(
                poll_id,
                s.ballots_of(poll_id).push(
                    (VoteRecord { has_voted: true, candidate_id, poll_id, voter: ctx.voter }),
                ),
            )
            &&& t.tallies() == s.tallies()
            &&& if s.tallies() {
                &&& t.polls() == s.polls().insert(
                    poll_id,
                    (Poll {
                        total_votes: (s.polls()[poll_id].total_votes + 1) as u64,
                        ..s.polls()[poll_id]
                    }),
                )
                &&& t.candidates() == s.candidates().insert(
                    poll_id,
                    s.candidates_of(poll_id).insert(
                        candidate_id,
                        (Candidate {
                            votes: (s.candidates_of(poll_id)[candidate_id].votes
                                + 1) as u64,
                            ..s.candidates_of(poll_id)[candidate_id]
                        }),
                    ),
                )
            } else {
                &&& t.polls() == s.polls()
                &&& t.candidates() == s.candidates()
            }
        },
        Err(e) => {
            &&& s.vote_error(ctx.voter, ctx.now, poll_id, candidate_id) == Some(e)
            &&& t == s
        },
    }
}

/// Deleting a poll: on success the store changed exactly so; on a refusal it is
/// unchanged and the refusal is the one its rules name.
pub open spec fn delete_poll_post(
    s: Store,
    t: Store,
    ctx: DeletePoll,
    poll_id: u64,
    r: Result<(), PollError>,
) -> bool {
    match r {
        Ok(()) => {
            &&& s.delete_poll_error(ctx.signer, poll_id) is None
            &&& t.polls() == s.polls().remove(poll_id)
            &&& t.candidates() == s.candidates()
            &&& t.ballots() == s.ballots()
            &&& t.tallies() == s.tallies()
        },
        Err(e) => {
            &&& s.delete_poll_error(ctx.signer, poll_id) == Some(e)
            &&& t == s
        },
    }
}

/// The length of `s` in UTF-8 bytes.
fn byte_len(s: &String) -> (r: usize)
    ensures
        r == encode_utf8(s@).len(),
{
    s.as_str().as_bytes().len()
}

impl Store {
    /// The refusal, if any, that creating poll `poll_id` meets: the window
    /// must be well ordered and still open at `now`, the question short
    /// enough, and the id free.
    pub open spec fn initialize_poll_error(
        &self,
        now: u64,
        poll_id: u64,
        question: Seq<char>,
        poll_start: u64,
        poll_end: u64,
    ) -> Option<PollError> {
        if poll_start >= poll_end {
            Some(PollError::InvalidWindow)
        } else if poll_end <= now {
            Some(PollError::WindowAlreadyClosed)
        } else if encode_utf8(question).len() > MAX_QUESTION_LEN {
            Some(PollError::FieldTooLong)
        } else if self.polls().contains_key(poll_id) {
            Some(PollError::DuplicatePoll)
        } else {
            None
        }
    }

    /// The refusal, if any, that adding candidate `candidate_id` to poll
    /// `poll_id` by `signer` meets: the poll must exist, `signer` must be its
    /// creator, the name short enough, and the candidate id free in the poll.
    pub open spec fn add_candidate_error(
        &self,
        signer: Identity,
        poll_id: u64,
        candidate_id: u64,
        name: Seq<char>,
    ) -> Option<PollError> {
        if !self.polls().contains_key(poll_id) {
            Some(PollError::NotFound)
        } else if !self.polls()[poll_id].authority.same(signer) {
            Some(PollError::Unauthorized)
        } else if encode_utf8(name).len() > MAX_NAME_LEN {
            Some(PollError::FieldTooLong)
        } else if self.candidates_of(poll_id).contains_key(candidate_id) {
            Some(PollError::DuplicateCandidate)
        } else {
            None
        }
    }

    /// The refusal, if any, that deleting candidate `candidate_id` of poll
    /// `poll_id` by `signer` meets: the poll must exist, `signer` must be its
    /// creator, and the candidate must exist.
    pub open spec fn delete_candidate_error(
        &self,
        signer: Identity,
        poll_id: u64,
        candidate_id: u64,
    ) -> Option<PollError> {
        if !self.polls().contains_key(poll_id) {
            Some(PollError::NotFound)
        } else if !self.polls()[poll_id].authority.same(signer) {
            Some(PollError::Unauthorized)
        } else if !self.candidates_of(poll_id).contains_key(candidate_id) {
            Some(PollError::NotFound)
        } else {
            None
        }
    }

    /// The refusal, if any, that a vote by `voter` at time `now` for
    /// candidate `candidate_id` of poll `poll_id` meets: the poll must exist,
    /// the candidate must exist and belong to it, `now` must lie within the
    /// window (both ends included), and `voter` must not have voted in the
    /// poll yet.
    pub open spec fn vote_error(
        &self,
        voter: Identity,
        now: u64,
        poll_id: u64,
        candidate_id: u64,
    ) -> Option<PollError> {
        if !self.polls().contains_key(poll_id) {
            Some(PollError::NotFound)
        } else if !self.candidates_of(poll_id).contains_key(candidate_id)
            || self.candidates_of(poll_id)[candidate_id].poll_id != poll_id {
            Some(PollError::InvalidCandidate)
        } else if now < self.polls()[poll_id].poll_start || now > self.polls()[poll_id].poll_end {
            Some(PollError::VotingClosed)
        } else if has_voted(self.ballots_of(poll_id), voter) {
            Some(PollError::AlreadyVoted)
        } else {
            None
        }
    }

    /// The refusal, if any, that deleting poll `poll_id` by `signer` meets:
    /// the poll must exist, `signer` must be its creator, and it must have
    /// no candidates left.
    pub open spec fn delete_poll_error(&self, signer: Identity, poll_id: u64) -> Option<PollError> {
        if !self.polls().contains_key(poll_id) {
            Some(PollError::NotFound)
        } else if !self.polls()[poll_id].authority.same(signer) {
            Some(PollError::Unauthorized)
        } else if self.polls()[poll_id].total_candidates > 0 {
            Some(PollError::CandidatesExist)
        } else {
            None
        }
    }
}

/// Creates poll `poll_id`, signed by `ctx.signer`, with no candidates and no
/// votes.
pub fn initialize_poll(
    store: &mut Store,
    ctx: &InitializePoll,
    poll_id: u64,
    question: String,
    poll_start: u64,
    poll_end: u64,
) -> (r: Result<(), PollError>)
    requires
        old(store).wf(),
    ensures
        final(store).wf(),
        initialize_poll_post(*old(store), *final(store), *ctx, poll_id, question, poll_start, poll_end, r),
{
    if poll_start >= poll_end {
        return Err(PollError::InvalidWindow);
    }
    if poll_end <= ctx.now {
        return Err(PollError::WindowAlreadyClosed);
    }
    if byte_len(&question) > MAX_QUESTION_LEN {
        return Err(PollError::FieldTooLong);
    }
    if store.polls.contains_key(&poll_id) {
        return Err(PollError::DuplicatePoll);
    }
    proof {
        let m = old(store).candidates_of(poll_id);
        assert forall|k: u64| !m.contains_key(k) by {
            if m.contains_key(k) {
                assert(old(store).polls@.contains_key(poll_id));
            }
        }
        lemma_len_zero_no_key(m);
    }
    let poll = Poll {
        poll_id,
        question,
        poll_start,
        poll_end,
        authority: ctx.signer,
        total_candidates: 0,
        total_votes: 0,
    };
    store.polls.insert(poll_id, poll);
    proof {
        assert forall|p: u64| #[trigger] store.polls@.contains_key(p) implies {
            &&& store.polls@[p].poll_id == p
            &&& store.polls@[p].total_candidates == store.candidates_of(p).len()
            &&& store.polls@[p].total_votes <= store.ballots_of(p).len()
        } by {
            if p != poll_id {
                assert(old(store).polls@.contains_key(p));
            }
        }
        assert forall|p: u64, c: u64| #[trigger] store.candidates_of(p).contains_key(c) implies {
            &&& store.polls@.contains_key(p)
            &&& store.candidates_of(p)[c].votes <= store.polls@[p].total_votes
        } by {
            assert(old(store).candidates_of(p).contains_key(c));
        }
        assert(store.candidates() =~= old(store).candidates());
        assert(store.ballots() =~= old(store).ballots());
    }
    Ok(())
}

/// Deletes poll `poll_id` on behalf of `ctx.signer`. Its vote records stay.
pub fn delete_poll(store: &mut Store, ctx: &DeletePoll, poll_id: u64) -> (r: Result<(), PollError>)
    requires
        old(store).wf(),
    ensures
        final(store).wf(),
        delete_poll_post(*old(store), *final(store), *ctx, poll_id, r),
{
    let poll = match store.polls.get(&poll_id) {
        Some(p) => p,
        None => {
            return Err(PollError::NotFound);
        },
    };
    if poll.authority != ctx.signer {
        return Err(PollError::Unauthorized);
    }
    if poll.total_candidates > 0 {
        return Err(PollError::CandidatesExist);
    }
    proof {
        lemma_len_zero_no_key(old(store).candidates_of(poll_id));
    }
    store.polls.remove(&poll_id);
    proof {
        assert forall|p: u64| #[trigger] store.polls@.contains_key(p) implies {
            &&& store.polls@[p].poll_id == p
            &&& store.polls@[p].total_candidates == store.candidates_of(p).len()
            &&& store.polls@[p].total_votes <= store.ballots_of(p).len()
        } by {
            assert(old(store).polls@.contains_key(p));
        }
        assert forall|p: u64, c: u64| #[trigger] store.candidates_of(p).contains_key(c) implies {
            &&& store.polls@.contains_key(p)
            &&& store.candidates_of(p)[c].votes <= store.polls@[p].total_votes
        } by {
            assert(old(store).candidates_of(p).contains_key(c));
            assert(p != poll_id);
        }
        assert(store.candidates() =~= old(store).candidates());
        assert(store.ballots() =~= old(store).ballots());
    }
    Ok(())
}

/// Adds candidate `candidate_id` named `candidate_name` to poll `poll_id`,
/// on behalf of `ctx.signer`, and counts it on the poll.
pub fn add_candidate(
    store: &mut Store,
    ctx: &AddCandidate,
    poll_id: u64,
    candidate_id: u64,
    candidate_name: String,
) -> (r: Result<(), PollError>)
    requires
        old(store).wf(),
    ensures
        final(store).wf(),
        add_candidate_post(*old(store), *final(store), *ctx, poll_id, candidate_id, candidate_name, r),
{
    let poll = match store.polls.get(&poll_id) {
        Some(p) => p,
        None => {
            return Err(PollError::NotFound);
        },
    };
    if poll.authority != ctx.signer {
        return Err(PollError::Unauthorized);
    }
    if byte_len(&candidate_name) > MAX_NAME_LEN {
        return Err(PollError::FieldTooLong);
    }
    let taken = match store.candidates.get(&poll_id) {
        Some(m) => m.contains_key(&candidate_id),
        None => false,
    };
    if taken {
        return Err(PollError::DuplicateCandidate);
    }
    let mut inner = match store.candidates.remove(&poll_id) {
        Some(m) => m,
        None => HashMap::new(),
    };
    assert(inner@ == old(store).candidates_of(poll_id));
    let candidate = Candidate { candidate_id, poll_id, name: candidate_name, votes: 0 };
    inner.insert(candidate_id, candidate);
    let n = inner.len();
    proof {
        assert(inner@.dom() == old(store).candidates_of(poll_id).dom().insert(candidate_id));
        assert(n == old(store).candidates_of(poll_id).len() + 1);
    }
    store.candidates.insert(poll_id, inner);
    let mut poll = store.polls.remove(&poll_id).unwrap();
    poll.total_candidates = poll.total_candidates + 1;
    store.polls.insert(poll_id, poll);
    assert(store.polls() =~= old(store).polls().insert(
        poll_id,
        (Poll {
            total_candidates: (old(store).polls()[poll_id].total_candidates + 1) as u64,
            ..old(store).polls()[poll_id]
        }),
    ));
    proof {
        assert(store.candidates_of(poll_id) == old(store).candidates_of(poll_id).insert(
            candidate_id,
            candidate,
        ));
        assert forall|p: u64| #[trigger] store.polls@.contains_key(p) implies {
            &&& store.polls@[p].poll_id == p
            &&& store.polls@[p].total_candidates == store.candidates_of(p).len()
            &&& store.polls@[p].total_votes <= store.ballots_of(p).len()
        } by {
            assert(old(store).polls@.contains_key(p));
        }
        assert forall|p: u64, c: u64| #[trigger] store.candidates_of(p).contains_key(c) implies {
            &&& store.polls@.contains_key(p)
            &&& store.candidates_of(p)[c].poll_id == p
            &&& store.candidates_of(p)[c].candidate_id == c
            &&& store.candidates_of(p)[c].votes <= store.polls@[p].total_votes
        } by {
            if p != poll_id || c != candidate_id {
                assert(old(store).candidates_of(p).contains_key(c));
            }
        }
        assert(store.candidates() =~= old(store).candidates().insert(
            poll_id,
            old(store).candidates_of(poll_id).insert(candidate_id, candidate),
        ));
        assert(store.ballots() =~= old(store).ballots());
    }
    Ok(())
}

/// Deletes candidate `candidate_id` of poll `poll_id` on behalf of
/// `ctx.signer`, and uncounts it on the poll.
pub fn delete_candidate(
    store: &mut Store,
    ctx: &DeleteCandidate,
    poll_id: u64,
    candidate_id: u64,
) -> (r: Result<(), PollError>)
    requires
        old(store).wf(),
    ensures
        final(store).wf(),
        delete_candidate_post(*old(store), *final(store), *ctx, poll_id, candidate_id, r),
{
    let poll = match store.polls.get(&poll_id) {
        Some(p) => p,
        None => {
            return Err(PollError::NotFound);
        },
    };
    if poll.authority != ctx.signer {
        return Err(PollError::Unauthorized);
    }
    let present = match store.candidates.get(&poll_id) {
        Some(m) => m.contains_key(&candidate_id),
        None => false,
    };
    if !present {
        return Err(PollError::NotFound);
    }
    let mut inner = store.candidates.remove(&poll_id).unwrap();
    assert(inner@ == old(store).candidates_of(poll_id));
    inner.remove(&candidate_id);
    proof {
        let m = old(store).candidates_of(poll_id);
        assert(m.dom().len() == m.dom().remove(candidate_id).len() + 1);
        assert(inner@.dom() == m.dom().remove(candidate_id));
    }
    store.candidates.insert(poll_id, inner);
    let mut poll = store.polls.remove(&poll_id).unwrap();
    poll.total_candidates = poll.total_candidates - 1;
    store.polls.insert(poll_id, poll);
    assert(store.polls() =~= old(store).polls().insert(
        poll_id,
        (Poll {
            total_candidates: (old(store).polls()[poll_id].total_candidates - 1) as u64,
            ..old(store).polls()[poll_id]
        }),
    ));
    proof {
        assert(store.candidates_of(poll_id) == old(store).candidates_of(poll_id).remove(
            candidate_id,
        ));
        assert forall|p: u64| #[trigger] store.polls@.contains_key(p) implies {
            &&& store.polls@[p].poll_id == p
            &&& store.polls@[p].total_candidates == store.candidates_of(p).len()
            &&& store.polls@[p].total_votes <= store.ballots_of(p).len()
        } by {
            assert(old(store).polls@.contains_key(p));
        }
        assert forall|p: u64, c: u64| #[trigger] store.candidates_of(p).contains_key(c) implies {
            &&& store.polls@.contains_key(p)
            &&& store.candidates_of(p)[c].poll_id == p
            &&& store.candidates_of(p)[c].candidate_id == c
            &&& store.candidates_of(p)[c].votes <= store.polls@[p].total_votes
        } by {
            assert(old(store).candidates_of(p).contains_key(c));
        }
        assert(store.candidates() =~= old(store).candidates().insert(
            poll_id,
            old(store).candidates_of(poll_id).remove(candidate_id),
        ));
        assert(store.ballots() =~= old(store).ballots());
    }
    Ok(())
}

/// The position of `voter`'s record among `log`, if it holds one.
fn find_voter(log: &Vec<VoteRecord>, voter: &Identity) -> (r: Option<usize>)
    ensures
        match r {
            Some(i) => i < log@.len() && log@[i as int].voter.same(*voter),
            None => !has_voted(log@, *voter),
        },
{
    let mut i: usize = 0;
    while i < log.len()
        invariant
            i <= log@.len(),
            forall|j: int| 0 <= j < i ==> !(#[trigger] log@[j]).voter.same(*voter),
        decreases log@.len() - i,
    {
        if log[i].voter == *voter {
            return Some(i);
        }
        i = i + 1;
    }
    None
}

/// Casts `ctx.voter`'s vote for candidate `candidate_id` of poll `poll_id`
/// at time `ctx.now`, leaving a vote record; where the store tallies, the
/// vote is also counted on the candidate and on the poll.
pub fn vote(store: &mut Store, ctx: &Vote, poll_id: u64, candidate_id: u64) -> (r: Result<
    (),
    PollError,
>)
    requires
        old(store).wf(),
    ensures
        final(store).wf(),
        vote_post(*old(store), *final(store), *ctx, poll_id, candidate_id, r),
{
    let poll = match store.polls.get(&poll_id) {
        Some(p) => p,
        None => {
            return Err(PollError::NotFound);
        },
    };
    let belongs = match store.candidates.get(&poll_id) {
        Some(m) => match m.get(&candidate_id) {
            Some(c) => c.poll_id == poll_id,
            None => false,
        },
        None => false,
    };
    if !belongs {
        return Err(PollError::InvalidCandidate);
    }
    if ctx.now < poll.poll_start || ctx.now > poll.poll_end {
        return Err(PollError::VotingClosed);
    }
    let voted = match store.ballots.get(&poll_id) {
        Some(log) => find_voter(log, &ctx.voter).is_some(),
        None => false,
    };
    if voted {
        return Err(PollError::AlreadyVoted);
    }
    let mut log = match store.ballots.remove(&poll_id) {
        Some(v) => v,
        None => Vec::new(),
    };
    assert(log@ == old(store).ballots_of(poll_id));
    let record = VoteRecord { has_voted: true, candidate_id, poll_id, voter: ctx.voter };
    log.push(record);
    let n = log.len();
    assert(n == old(store).ballots_of(poll_id).len() + 1);
    store.ballots.insert(poll_id, log);
    assert(store.ballots_of(poll_id) == old(store).ballots_of(poll_id).push(record));
    if store.tally {
        let mut inner = store.candidates.remove(&poll_id).unwrap();
        let mut candidate = inner.remove(&candidate_id).unwrap();
        assert(candidate.votes <= old(store).polls@[poll_id].total_votes);
        candidate.votes = candidate.votes + 1;
        inner.insert(candidate_id, candidate);
        assert(inner@.dom() =~= old(store).candidates_of(poll_id).dom());
        store.candidates.insert(poll_id, inner);
        let mut poll = store.polls.remove(&poll_id).unwrap();
        poll.total_votes = poll.total_votes + 1;
        store.polls.insert(poll_id, poll);
        assert(store.polls() =~= old(store).polls().insert(
            poll_id,
            (Poll {
                total_votes: (old(store).polls()[poll_id].total_votes + 1) as u64,
                ..old(store).polls()[poll_id]
            }),
        ));
        proof {
            assert(store.candidates_of(poll_id) == old(store).candidates_of(poll_id).insert(
                candidate_id,
                candidate,
            ));
            assert(store.candidates() =~= old(store).candidates().insert(
                poll_id,
                old(store).candidates_of(poll_id).insert(candidate_id, candidate),
            ));
        }
    } else {
        assert(store.candidates() =~= old(store).candidates());
    }
    proof {
        assert forall|p: u64| #[trigger] store.polls@.contains_key(p) implies {
            &&& store.polls@[p].poll_id == p
            &&& store.polls@[p].total_candidates == store.candidates_of(p).len()
            &&& store.polls@[p].total_votes <= store.ballots_of(p).len()
        } by {
            assert(old(store).polls@.contains_key(p));
        }
        assert forall|p: u64, c: u64| #[trigger] store.candidates_of(p).contains_key(c) implies {
            &&& store.polls@.contains_key(p)
            &&& store.candidates_of(p)[c].poll_id == p
            &&& store.candidates_of(p)[c].candidate_id == c
            &&& store.candidates_of(p)[c].votes <= store.polls@[p].total_votes
        } by {
            assert(old(store).candidates_of(p).contains_key(c));
        }
        assert(store.ballots() =~= old(store).ballots().insert(
            poll_id,
            old(store).ballots_of(poll_id).push(record),
        ));
    }
    Ok(())
}

/// Relies on solana_program's `Clock::get`: the Unix time of the clock
/// sysvar, where the host provides one. What it reads depends on the moment
/// and the host, so nothing is promised of it.
#[verifier::external_body]
fn clock_unix_timestamp() -> (r: Option<i64>) {
    <solana_program::clock::Clock as solana_program::sysvar::Sysvar>::get().ok().map(
        |c| c.unix_timestamp,
    )
}

/// Creates poll `poll_id` signed by `signer` at the clock's current time.
/// `None` where the clock cannot be read, and the store is then unchanged;
/// otherwise the outcome of creating the poll at the time read (a negative
/// clock reading is taken modulo 2^64).
pub fn initialize_poll_now(
    store: &mut Store,
    signer: Identity,
    poll_id: u64,
    question: String,
    poll_start: u64,
    poll_end: u64,
) -> (r: Option<Result<(), PollError>>)
    requires
        old(store).wf(),
    ensures
        final(store).wf(),
        match r {
            None => *final(store) == *old(store),
            Some(res) => exists|now: u64|
                #[trigger] initialize_poll_post(
                    *old(store),
                    *final(store),
                    (InitializePoll { signer, now }),
                    poll_id,
                    question,
                    poll_start,
                    poll_end,
                    res,
                ),
        },
{
    match clock_unix_timestamp() {
        None => None,
        Some(ts) => {
            let ctx = InitializePoll { signer, now: ts as u64 };
            Some(initialize_poll(store, &ctx, poll_id, question, poll_start, poll_end))
        },
    }
}

/// Casts `voter`'s vote for candidate `candidate_id` of poll `poll_id` at the
/// clock's current time. `None` where the clock cannot be read, and the
/// store is then unchanged; otherwise the outcome of voting at the time read
/// (a negative clock reading is taken modulo 2^64).
pub fn vote_now(store: &mut Store, voter: Identity, poll_id: u64, candidate_id: u64) -> (r: Option<
    Result<(), PollError>,
>)
    requires
        old(store).wf(),
    ensures
        final(store).wf(),
        match r {
            None => *final(store) == *old(store),
            Some(res) => exists|now: u64|
                #[trigger] vote_post(
                    *old(store),
                    *final(store),
                    (Vote { voter, now }),
                    poll_id,
                    candidate_id,
                    res,
                ),
        },
{
    match clock_unix_timestamp() {
        None => None,
        Some(ts) => {
            let ctx = Vote { voter, now: ts as u64 };
            Some(vote(store, &ctx, poll_id, candidate_id))
        },
    }
}

} // verus!
