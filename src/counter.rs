//! A single counter kept in an account's data, moved up or down by an
//! instruction. The account holds the count as four little-endian bytes;
//! an instruction is a variant byte (0 to increment, 1 to decrement)
//! followed by the amount as four little-endian bytes.
use vstd::prelude::*;

verus! {

/// The state kept in the counter account.
#[derive(Clone, Copy, PartialEq, Eq, Structural, Debug)]
pub struct Counter {
    pub count: u32,
}

/// What to do to the counter.
#[derive(Clone, Copy, PartialEq, Eq, Structural, Debug)]
pub enum CounterInstruction {
    Increment(u32),
    Decrement(u32),
}

/// Why a counter update was refused.
#[derive(Clone, Copy, PartialEq, Eq, Structural, Debug)]
pub enum CounterError {
    InvalidAccountData,
    InvalidInstruction,
    ArithmeticOverflow,
}

/// The number that four bytes hold, least significant first.
pub open spec fn le_u32(b: Seq<u8>) -> int
    recommends
        b.len() == 4,
{
    b[0] as int + b[1] as int * 0x100 + b[2] as int * 0x1_0000 + b[3] as int * 0x100_0000
}

/// The counter that account data holds: exactly four bytes.
pub open spec fn counter_of(data: Seq<u8>) -> Option<Counter> {
    if data.len() == 4 {
        Some(Counter { count: le_u32(data) as u32 })
    } else {
        None
    }
}

/// The instruction that instruction data holds: exactly five bytes, a known
/// variant byte and the amount.
pub open spec fn instruction_of(data: Seq<u8>) -> Option<CounterInstruction> {
    if data.len() == 5 && data[0] == 0 {
        Some(CounterInstruction::Increment(le_u32(data.subrange(1, 5)) as u32))
    } else if data.len() == 5 && data[0] == 1 {
        Some(CounterInstruction::Decrement(le_u32(data.subrange(1, 5)) as u32))
    } else {
        None
    }
}

/// The count after the instruction, if it stays within `u32`.
pub open spec fn applied(count: u32, ins: CounterInstruction) -> Option<u32> {
    match ins {
        CounterInstruction::Increment(n) => if count + n <= u32::MAX {
            Some((count + n) as u32)
        } else {
            None
        },
        CounterInstruction::Decrement(n) => if count >= n {
            Some((count - n) as u32)
        } else {
            None
        },
    }
}

/// The four bytes of `n`, least significant first.
pub open spec fn le_bytes(n: u32) -> Seq<u8> {
    seq![
        (n % 0x100) as u8,
        ((n / 0x100) % 0x100) as u8,
        ((n / 0x1_0000) % 0x100) as u8,
        (n / 0x100_0000) as u8,
    ]
}

/// The bytes written for a count read back as that count.
pub proof fn lemma_counter_round_trip(n: u32)
    ensures
        counter_of(le_bytes(n)) == Some(Counter { count: n }),
{
    let b = le_bytes(n);
    assert(le_u32(b) == n) by (nonlinear_arith)
        requires
            b[0] == n % 0x100,
            b[1] == (n / 0x100) % 0x100,
            b[2] == (n / 0x1_0000) % 0x100,
            b[3] == n / 0x100_0000,
            le_u32(b) == b[0] as int + b[1] as int * 0x100 + b[2] as int * 0x1_0000 + b[3] as int
                * 0x100_0000,
    ;
}

/// Reads four bytes at `at` as a little-endian number.
fn read_u32(data: &[u8], at: usize) -> (r: u32)
    requires
        at + 4 <= data@.len(),
    ensures
        r == le_u32(data@.subrange(at as int, at + 4)),
{
    let b0 = data[at] as u64;
    let b1 = data[at + 1] as u64;
    let b2 = data[at + 2] as u64;
    let b3 = data[at + 3] as u64;
    let v: u64 = b0 + b1 * 0x100 + b2 * 0x1_0000 + b3 * 0x100_0000;
    v as u32
}

/// Decodes the counter account's data.
pub fn decode_counter(data: &[u8]) -> (r: Option<Counter>)
    ensures
        r == counter_of(data@),
{
    if data.len() != 4 {
        return None;
    }
    let count = read_u32(data, 0);
    assert(data@.subrange(0, 4) =~= data@);
    Some(Counter { count })
}

/// Decodes an instruction.
pub fn decode_instruction(data: &[u8]) -> (r: Option<CounterInstruction>)
    ensures
        r == instruction_of(data@),
{
    if data.len() != 5 {
        return None;
    }
    let amount = read_u32(data, 1);
    if data[0] == 0 {
        Some(CounterInstruction::Increment(amount))
    } else if data[0] == 1 {
        Some(CounterInstruction::Decrement(amount))
    } else {
        None
    }
}

/// The counter after the instruction, or `ArithmeticOverflow` where the
/// count would leave the range of `u32`.
pub fn apply(counter: Counter, ins: CounterInstruction) -> (r: Result<Counter, CounterError>)
    ensures
        match applied(counter.count, ins) {
            Some(n) => r == Ok::<Counter, CounterError>(Counter { count: n }),
            None => r == Err::<Counter, CounterError>(CounterError::ArithmeticOverflow),
        },
{
    match ins {
        CounterInstruction::Increment(n) => match counter.count.checked_add(n) {
            Some(c) => Ok(Counter { count: c }),
            None => Err(CounterError::ArithmeticOverflow),
        },
        CounterInstruction::Decrement(n) => match counter.count.checked_sub(n) {
            Some(c) => Ok(Counter { count: c }),
            None => Err(CounterError::ArithmeticOverflow),
        },
    }
}

/// Encodes the counter as account data.
pub fn encode_counter(counter: Counter) -> (r: Vec<u8>)
    ensures
        r@ == le_bytes(counter.count),
{
    let n = counter.count;
    let mut r: Vec<u8> = Vec::new();
    r.push((n % 0x100) as u8);
    r.push(((n / 0x100) % 0x100) as u8);
    r.push(((n / 0x1_0000) % 0x100) as u8);
    r.push((n / 0x100_0000) as u8);
    assert(r@ =~= le_bytes(n));
    r
}

/// Runs one instruction against the counter account's data: decodes the
/// counter, then the instruction, applies it and writes the new count back.
/// On any refusal the data is left as it was.
pub fn program_counter(account_data: &mut Vec<u8>, instruction_data: &[u8]) -> (r: Result<
    (),
    CounterError,
>)
    ensures
        match (counter_of(old(account_data)@), instruction_of(instruction_data@)) {
            (None, _) => {
                &&& r == Err::<(), CounterError>(CounterError::InvalidAccountData)
                &&& final(account_data)@ == old(account_data)@
            },
            (Some(_), None) => {
                &&& r == Err::<(), CounterError>(CounterError::InvalidInstruction)
                &&& final(account_data)@ == old(account_data)@
            },
            (Some(c), Some(ins)) => match applied(c.count, ins) {
                Some(n) => {
                    &&& r == Ok::<(), CounterError>(())
                    &&& final(account_data)@ == le_bytes(n)
                },
                None => {
                    &&& r == Err::<(), CounterError>(CounterError::ArithmeticOverflow)
                    &&& final(account_data)@ == old(account_data)@
                },
            },
        },
{
    let counter = match decode_counter(account_data.as_slice()) {
        Some(c) => c,
        None => {
            return Err(CounterError::InvalidAccountData);
        },
    };
    let ins = match decode_instruction(instruction_data) {
        Some(i) => i,
        None => {
            return Err(CounterError::InvalidInstruction);
        },
    };
    let updated = match apply(counter, ins) {
        Ok(c) => c,
        Err(e) => {
            return Err(e);
        },
    };
    *account_data = encode_counter(updated);
    Ok(())
}

} // verus!
