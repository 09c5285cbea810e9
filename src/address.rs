//! The seeds from which each record's address is derived: a poll's from its
//! id, a candidate's from its poll's id and its own id, a vote record's from
//! a fixed tag, its poll's id and its voter. Every id is written as eight
//! little-endian bytes. The address itself is the program-derived address
//! that the host finds for those seeds under the program's id.
use vstd::prelude::*;
use vstd::bytes::{lemma_auto_spec_u64_to_from_le_bytes, spec_u64_to_le_bytes, u64_to_le_bytes};
use crate::ledger::Identity;

verus! {

/// The tag that opens a vote record's seeds: the bytes of "vote".
pub open spec fn vote_tag() -> Seq<u8> {
    seq![0x76u8, 0x6fu8, 0x74u8, 0x65u8]
}

/// The seeds of poll `poll_id`.
pub open spec fn poll_seeds_of(poll_id: u64) -> Seq<Seq<u8>> {
    seq![spec_u64_to_le_bytes(poll_id)]
}

/// The seeds of candidate `candidate_id` of poll `poll_id`.
pub open spec fn candidate_seeds_of(poll_id: u64, candidate_id: u64) -> Seq<Seq<u8>> {
    seq![spec_u64_to_le_bytes(poll_id), spec_u64_to_le_bytes(candidate_id)]
}

/// The seeds of `voter`'s vote record in poll `poll_id`.
pub open spec fn vote_seeds_of(poll_id: u64, voter: Identity) -> Seq<Seq<u8>> {
    seq![vote_tag(), spec_u64_to_le_bytes(poll_id), voter.bytes@]
}

/// The seeds of poll `poll_id`.
pub fn poll_seeds(poll_id: u64) -> (r: Vec<Vec<u8>>)
    ensures
        r.deep_view() == poll_seeds_of(poll_id),
{
    let mut r: Vec<Vec<u8>> = Vec::new();
    r.push(u64_to_le_bytes(poll_id));
    assert forall|i: int| 0 <= i < r@.len() implies r@[i].deep_view() =~= r@[i]@ by {}
    assert(r.deep_view() =~= poll_seeds_of(poll_id));
    r
}

/// The seeds of candidate `candidate_id` of poll `poll_id`.
pub fn candidate_seeds(poll_id: u64, candidate_id: u64) -> (r: Vec<Vec<u8>>)
    ensures
        r.deep_view() == candidate_seeds_of(poll_id, candidate_id),
{
    let mut r: Vec<Vec<u8>> = Vec::new();
    r.push(u64_to_le_bytes(poll_id));
    r.push(u64_to_le_bytes(candidate_id));
    assert forall|i: int| 0 <= i < r@.len() implies r@[i].deep_view() =~= r@[i]@ by {}
    assert(r.deep_view() =~= candidate_seeds_of(poll_id, candidate_id));
    r
}

/// The seeds of `voter`'s vote record in poll `poll_id`.
pub fn vote_seeds(poll_id: u64, voter: &Identity) -> (r: Vec<Vec<u8>>)
    ensures
        r.deep_view() == vote_seeds_of(poll_id, *voter),
{
    let tag: Vec<u8> = vec![0x76u8, 0x6fu8, 0x74u8, 0x65u8];
    assert(tag@ =~= vote_tag());
    let mut key: Vec<u8> = Vec::new();
    let mut i: usize = 0;
    while i < 32
        invariant
            i <= 32,
            voter.bytes@.len() == 32,
            key@ =~= voter.bytes@.subrange(0, i as int),
        decreases 32 - i,
    {
        key.push(voter.bytes[i]);
        i = i + 1;
    }
    assert(key@ =~= voter.bytes@);
    let mut r: Vec<Vec<u8>> = Vec::new();
    r.push(tag);
    r.push(u64_to_le_bytes(poll_id));
    r.push(key);
    assert forall|i: int| 0 <= i < r@.len() implies r@[i].deep_view() =~= r@[i]@ by {}
    assert(r.deep_view() =~= vote_seeds_of(poll_id, *voter));
    r
}

/// Distinct records have distinct seeds: two polls share seeds only if they
/// share an id, two candidates only if they share both ids, two vote records
/// only if they share poll and voter; and records of different kinds never
/// share seeds.
pub proof fn lemma_seeds_distinct(pa: u64, pb: u64, ca: u64, cb: u64, va: Identity, vb: Identity)
    ensures
        poll_seeds_of(pa) == poll_seeds_of(pb) ==> pa == pb,
        candidate_seeds_of(pa, ca) == candidate_seeds_of(pb, cb) ==> pa == pb && ca == cb,
        vote_seeds_of(pa, va) == vote_seeds_of(pb, vb) ==> pa == pb && va.same(vb),
        poll_seeds_of(pa) != candidate_seeds_of(pb, cb),
        poll_seeds_of(pa) != vote_seeds_of(pb, vb),
        candidate_seeds_of(pa, ca) != vote_seeds_of(pb, vb),
{
    lemma_auto_spec_u64_to_from_le_bytes();
    if poll_seeds_of(pa) == poll_seeds_of(pb) {
        assert(poll_seeds_of(pa)[0] == poll_seeds_of(pb)[0]);
    }
    if candidate_seeds_of(pa, ca) == candidate_seeds_of(pb, cb) {
        assert(candidate_seeds_of(pa, ca)[0] == candidate_seeds_of(pb, cb)[0]);
        assert(candidate_seeds_of(pa, ca)[1] == candidate_seeds_of(pb, cb)[1]);
    }
    if vote_seeds_of(pa, va) == vote_seeds_of(pb, vb) {
        assert(vote_seeds_of(pa, va)[1] == vote_seeds_of(pb, vb)[1]);
        assert(vote_seeds_of(pa, va)[2] == vote_seeds_of(pb, vb)[2]);
    }
    assert(poll_seeds_of(pa).len() != candidate_seeds_of(pb, cb).len());
    assert(poll_seeds_of(pa).len() != vote_seeds_of(pb, vb).len());
    assert(candidate_seeds_of(pa, ca).len() != vote_seeds_of(pb, vb).len());
}

/// The program-derived address and bump seed that the host finds for
/// `seeds` under program `program`, if it finds one.
pub uninterp spec fn program_address_of(seeds: Seq<Seq<u8>>, program: Seq<u8>) -> Option<(Seq<u8>, u8)>;

/// Whether `r` is the address found for `seeds` under `program`.
pub open spec fn is_address_of(r: Option<(Identity, u8)>, seeds: Seq<Seq<u8>>, program: Identity) -> bool {
    match r {
        Some((a, bump)) => program_address_of(seeds, program.bytes@) == Some((a.bytes@, bump)),
        None => program_address_of(seeds, program.bytes@) is None,
    }
}

/// Relies on solana_program's `Pubkey::try_find_program_address`: the
/// address and bump seed that it finds depend on the seeds and the program
/// id alone.
#[verifier::external_body]
fn find_program_address(seeds: &Vec<Vec<u8>>, program_id: &Identity) -> (r: Option<(Identity, u8)>)
    ensures
        match r {
            Some((a, bump)) => program_address_of(seeds.deep_view(), program_id.bytes@) == Some(
                (a.bytes@, bump),
            ),
            None => program_address_of(seeds.deep_view(), program_id.bytes@) is None,
        },
{
    let parts: Vec<&[u8]> = seeds.iter().map(|s| s.as_slice()).collect();
    let program = solana_program::pubkey::Pubkey::new_from_array(program_id.bytes);
    solana_program::pubkey::Pubkey::try_find_program_address(&parts, &program).map(
        |(a, bump)| (Identity { bytes: a.to_bytes() }, bump),
    )
}

/// The address of poll `poll_id` under program `program_id`.
pub fn poll_address(program_id: &Identity, poll_id: u64) -> (r: Option<(Identity, u8)>)
    ensures
        is_address_of(r, poll_seeds_of(poll_id), *program_id),
{
    find_program_address(&poll_seeds(poll_id), program_id)
}

/// The address of candidate `candidate_id` of poll `poll_id` under program
/// `program_id`.
pub fn candidate_address(program_id: &Identity, poll_id: u64, candidate_id: u64) -> (r: Option<
    (Identity, u8),
>)
    ensures
        is_address_of(r, candidate_seeds_of(poll_id, candidate_id), *program_id),
{
    find_program_address(&candidate_seeds(poll_id, candidate_id), program_id)
}

/// The address of `voter`'s vote record in poll `poll_id` under program
/// `program_id`.
pub fn vote_address(program_id: &Identity, poll_id: u64, voter: &Identity) -> (r: Option<
    (Identity, u8),
>)
    ensures
        is_address_of(r, vote_seeds_of(poll_id, *voter), *program_id),
{
    find_program_address(&vote_seeds(poll_id, voter), program_id)
}

} // verus!
