//! The message of the noncommit that a unit sends at the third phase boundary.

use vstd::prelude::*;

verus! {

/// The decimal digits of `n` in ASCII, most significant first, without
/// leading zeros.
pub open spec fn decimal(n: nat) -> Seq<u8>
    decreases n,
{
    if n < 10 {
        seq![(48 + n) as u8]
    } else {
        decimal(n / 10).push((48 + n % 10) as u8)
    }
}

/// The ASCII bytes of `noncommit(`.
pub open spec fn noncommit_prefix() -> Seq<u8> {
    seq![110u8, 111u8, 110u8, 99u8, 111u8, 109u8, 109u8, 105u8, 116u8, 40u8]
}

/// The text `noncommit(j+1, i)` in ASCII: what a unit that last saw slot `j`
/// finalized signs when slot `i` reaches its third phase.
pub open spec fn noncommit_message_spec(j: u32, i: u32) -> Seq<u8> {
    noncommit_prefix() + decimal((j + 1) as nat) + seq![44u8, 32u8] + decimal(i as nat) + seq![
        41u8,
    ]
}

/// Appends the decimal digits of `n` to `out`.
fn push_decimal(out: &mut Vec<u8>, n: u64)
    ensures
        final(out)@ == old(out)@ + decimal(n as nat),
    decreases n,
{
    if n >= 10 {
        push_decimal(out, n / 10);
    }
    let digit: u8 = (48 + n % 10) as u8;
    out.push(digit);
}

/// Builds the message of the boundary noncommit for `(j + 1, i)`.
pub fn noncommit_message(j: u32, i: u32) -> (msg: Vec<u8>)
    ensures
        msg@ == noncommit_message_spec(j, i),
{
    let mut msg: Vec<u8> = Vec::new();
    msg.push(110u8);
    msg.push(111u8);
    msg.push(110u8);
    msg.push(99u8);
    msg.push(111u8);
    msg.push(109u8);
    msg.push(109u8);
    msg.push(105u8);
    msg.push(116u8);
    msg.push(40u8);
    assert(msg@ == noncommit_prefix());
    let after: u64 = j as u64 + 1;
    push_decimal(&mut msg, after);
    msg.push(44u8);
    msg.push(32u8);
    push_decimal(&mut msg, i as u64);
    msg.push(41u8);
    msg
}

/// Every byte of a decimal numeral is an ASCII digit, and only zero starts
/// with the digit zero.
pub proof fn lemma_decimal_digits(n: nat)
    ensures
        decimal(n).len() >= 1,
        forall|k: int| 0 <= k < decimal(n).len() ==> 48 <= #[trigger] decimal(n)[k] <= 57,
        decimal(n)[0] == 48 <==> n == 0,
    decreases n,
{
    if n >= 10 {
        lemma_decimal_digits(n / 10);
    }
}

} // verus!
