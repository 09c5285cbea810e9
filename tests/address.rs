use poll_ledger::address::{
    candidate_address, candidate_seeds, poll_address, poll_seeds, vote_address, vote_seeds,
};
use poll_ledger::ledger::Identity;

fn program() -> Identity {
    Identity { bytes: [0xab; 32] }
}

#[test]
fn poll_seeds_are_little_endian_id() {
    assert_eq!(poll_seeds(42), vec![vec![42, 0, 0, 0, 0, 0, 0, 0]]);
    assert_eq!(poll_seeds(0x0102_0304_0506_0708), vec![vec![8, 7, 6, 5, 4, 3, 2, 1]]);
}

#[test]
fn candidate_seeds_hold_both_ids() {
    assert_eq!(
        candidate_seeds(1, 258),
        vec![vec![1, 0, 0, 0, 0, 0, 0, 0], vec![2, 1, 0, 0, 0, 0, 0, 0]]
    );
}

#[test]
fn vote_seeds_are_tagged() {
    let voter = Identity { bytes: [9; 32] };
    let seeds = vote_seeds(3, &voter);
    assert_eq!(seeds.len(), 3);
    assert_eq!(seeds[0], b"vote".to_vec());
    assert_eq!(seeds[1], vec![3, 0, 0, 0, 0, 0, 0, 0]);
    assert_eq!(seeds[2], vec![9; 32]);
}

#[test]
fn addresses_are_deterministic_and_distinct() {
    let a = poll_address(&program(), 1).unwrap();
    assert_eq!(poll_address(&program(), 1).unwrap(), a);
    let b = poll_address(&program(), 2).unwrap();
    assert_ne!(a.0, b.0);
    assert_ne!(a.0, program());
    let c = candidate_address(&program(), 1, 1).unwrap();
    assert_ne!(c.0, a.0);
    let v1 = vote_address(&program(), 1, &Identity { bytes: [1; 32] }).unwrap();
    let v2 = vote_address(&program(), 1, &Identity { bytes: [2; 32] }).unwrap();
    assert_ne!(v1.0, v2.0);
    let other = Identity { bytes: [0xcd; 32] };
    assert_ne!(poll_address(&other, 1).unwrap().0, a.0);
}
