//! The tasks of a phase: the key under which the object of a task is
//! stored, the check of what a read fetched, and what a timed result means
//! to the runner.

use vstd::prelude::*;
use crate::runner::TaskOutcome;

verus! {

/// The decimal digits of a number in ASCII, most significant first.
pub open spec fn decimal(n: nat) -> Seq<u8>
    decreases n,
{
    if n < 10 {
        seq![(48 + n) as u8]
    } else {
        decimal(n / 10).push((48 + n % 10) as u8)
    }
}

/// What every object key begins with: `test_` in ASCII.
pub open spec fn key_prefix() -> Seq<u8> {
    seq![116u8, 101u8, 115u8, 116u8, 95u8]
}

/// The key of the object of a task: `test_` and the index in decimal.
pub open spec fn key_of(index: nat) -> Seq<u8> {
    key_prefix() + decimal(index)
}

/// The decimal digits of a number in ASCII.
pub fn decimal_digits(n: usize) -> (digits: Vec<u8>)
    ensures
        digits@ == decimal(n as nat),
{
    let mut digits: Vec<u8> = Vec::new();
    digits.push(48 + (n % 10) as u8);
    let mut rest: usize = n / 10;
    proof {
        if n >= 10 {
            assert(decimal(n as nat) =~= decimal(rest as nat) + digits@);
        } else {
            assert(decimal(n as nat) =~= digits@);
        }
    }
    while rest > 0
        invariant
            decimal(n as nat) == if rest == 0 {
                digits@
            } else {
                decimal(rest as nat) + digits@
            },
        decreases rest,
    {
        let ghost before = digits@;
        let digit: u8 = 48 + (rest % 10) as u8;
        digits.insert(0, digit);
        proof {
            let next = (rest / 10) as nat;
            assert(digits@ =~= seq![digit] + before);
            if rest >= 10 {
                assert(decimal(rest as nat) == decimal(next).push(digit));
                assert(decimal(next).push(digit) + before =~= decimal(next) + digits@);
            } else {
                assert(decimal(rest as nat) == seq![digit]);
            }
        }
        rest = rest / 10;
    }
    digits
}

/// The key of the object of the task `index`, in ASCII.
pub fn object_key(index: usize) -> (key: Vec<u8>)
    ensures
        key@ == key_of(index as nat),
{
    let mut key: Vec<u8> = Vec::new();
    key.push(116);
    key.push(101);
    key.push(115);
    key.push(116);
    key.push(95);
    assert(key@ =~= key_prefix());
    let mut digits = decimal_digits(index);
    key.append(&mut digits);
    key
}

/// A read fetched another number of bytes than were written.
#[derive(Clone, Copy, Debug, PartialEq, Eq, Structural)]
pub struct SizeMismatch {
    pub expected: usize,
    pub fetched: usize,
}

/// Checks the length of what a read fetched against the payload size. A
/// mismatch is a failure of the task.
pub fn check_fetched_length(expected: usize, fetched: usize) -> (result: Result<(), SizeMismatch>)
    ensures
        expected == fetched ==> result == Ok::<(), SizeMismatch>(()),
        expected != fetched ==> result == Err::<(), SizeMismatch>(
            SizeMismatch { expected, fetched },
        ),
{
    if fetched == expected {
        Ok(())
    } else {
        Err(SizeMismatch { expected, fetched })
    }
}

/// What a timed result means to the runner: a success with its duration,
/// or a failure.
pub fn outcome_of<T, E>(timed: &Result<(T, u64), E>) -> (outcome: TaskOutcome)
    ensures
        match *timed {
            Ok(pair) => outcome == (TaskOutcome::Success { nanos: pair.1 }),
            Err(_) => outcome == TaskOutcome::Failure,
        },
{
    match timed {
        Ok(pair) => TaskOutcome::Success { nanos: pair.1 },
        Err(_) => TaskOutcome::Failure,
    }
}

} // verus!
