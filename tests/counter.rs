use poll_ledger::counter::{
    apply, decode_counter, decode_instruction, encode_counter, program_counter, Counter,
    CounterError, CounterInstruction,
};

#[test]
fn decode_counter_reads_little_endian() {
    assert_eq!(decode_counter(&[1, 2, 0, 0]), Some(Counter { count: 513 }));
    assert_eq!(decode_counter(&[0xff, 0xff, 0xff, 0xff]), Some(Counter { count: u32::MAX }));
    assert_eq!(decode_counter(&[1, 2, 0]), None);
    assert_eq!(decode_counter(&[1, 2, 0, 0, 0]), None);
}

#[test]
fn decode_instruction_variants() {
    assert_eq!(decode_instruction(&[0, 5, 0, 0, 0]), Some(CounterInstruction::Increment(5)));
    assert_eq!(decode_instruction(&[1, 0, 1, 0, 0]), Some(CounterInstruction::Decrement(256)));
    assert_eq!(decode_instruction(&[2, 0, 0, 0, 0]), None);
    assert_eq!(decode_instruction(&[0, 5, 0, 0]), None);
    assert_eq!(decode_instruction(&[]), None);
}

#[test]
fn encode_counter_writes_little_endian() {
    assert_eq!(encode_counter(Counter { count: 0x0403_0201 }), vec![1, 2, 3, 4]);
    assert_eq!(encode_counter(Counter { count: 0 }), vec![0, 0, 0, 0]);
}

#[test]
fn apply_checks_range() {
    let c = Counter { count: 10 };
    assert_eq!(apply(c, CounterInstruction::Increment(5)), Ok(Counter { count: 15 }));
    assert_eq!(apply(c, CounterInstruction::Decrement(10)), Ok(Counter { count: 0 }));
    assert_eq!(apply(c, CounterInstruction::Decrement(11)), Err(CounterError::ArithmeticOverflow));
    assert_eq!(
        apply(Counter { count: u32::MAX }, CounterInstruction::Increment(1)),
        Err(CounterError::ArithmeticOverflow)
    );
}

#[test]
fn program_counter_updates_account() {
    let mut data = vec![10, 0, 0, 0];
    assert_eq!(program_counter(&mut data, &[0, 7, 0, 0, 0]), Ok(()));
    assert_eq!(data, vec![17, 0, 0, 0]);
    assert_eq!(program_counter(&mut data, &[1, 17, 0, 0, 0]), Ok(()));
    assert_eq!(data, vec![0, 0, 0, 0]);
}

#[test]
fn program_counter_refusals_leave_data() {
    let mut data = vec![1, 0, 0, 0];
    assert_eq!(program_counter(&mut data, &[1, 2, 0, 0, 0]), Err(CounterError::ArithmeticOverflow));
    assert_eq!(program_counter(&mut data, &[9, 2, 0, 0, 0]), Err(CounterError::InvalidInstruction));
    assert_eq!(data, vec![1, 0, 0, 0]);
    let mut short = vec![1, 0];
    assert_eq!(program_counter(&mut short, &[0, 2, 0, 0, 0]), Err(CounterError::InvalidAccountData));
    assert_eq!(short, vec![1, 0]);
}
