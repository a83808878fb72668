//! The count typed before a command: a run of decimal digits.

use vstd::prelude::*;

verus! {

/// Value of the decimal digit `c`, if it is one.
pub open spec fn digit_spec(c: char) -> Option<u8> {
    if c == '0' {
        Some(0u8)
    } else if c == '1' {
        Some(1u8)
    } else if c == '2' {
        Some(2u8)
    } else if c == '3' {
        Some(3u8)
    } else if c == '4' {
        Some(4u8)
    } else if c == '5' {
        Some(5u8)
    } else if c == '6' {
        Some(6u8)
    } else if c == '7' {
        Some(7u8)
    } else if c == '8' {
        Some(8u8)
    } else if c == '9' {
        Some(9u8)
    } else {
        None
    }
}

/// The number that the digits `d` write, most significant first.
pub open spec fn decimal(d: Seq<u8>) -> nat
    decreases d.len(),
{
    if d.len() == 0 {
        0
    } else {
        decimal(d.drop_last()) * 10 + d.last() as nat
    }
}

/// Every entry of `d` is a digit value.
pub open spec fn all_digits(d: Seq<u8>) -> bool {
    forall|i: int| 0 <= i < d.len() ==> d[i] <= 9
}

/// The count that the digits `d` give for a command whose count may not
/// exceed `max`: 1 when no digit was typed or the number is too large.
pub open spec fn amount_of(d: Seq<u8>, max: nat) -> nat {
    if d.len() == 0 || decimal(d) > max {
        1
    } else {
        decimal(d)
    }
}

/// A single digit writes its own value.
pub proof fn lemma_decimal_single(n: u8)
    ensures
        decimal(seq![n]) == n as nat,
{
    assert(seq![n].drop_last() =~= Seq::<u8>::empty());
    assert(decimal(Seq::<u8>::empty()) == 0);
}

/// Value of the decimal digit `c`, if it is one.
pub fn digit_of(c: char) -> (r: Option<u8>)
    ensures
        r == digit_spec(c),
{
    match c {
        '0' => Some(0),
        '1' => Some(1),
        '2' => Some(2),
        '3' => Some(3),
        '4' => Some(4),
        '5' => Some(5),
        '6' => Some(6),
        '7' => Some(7),
        '8' => Some(8),
        '9' => Some(9),
        _ => None,
    }
}

/// The count that the digits `d` give, at most `max`; 1 when `d` is empty
/// or writes a number above `max`.
pub fn parse_amount(d: &Vec<u8>, max: u64) -> (r: u64)
    requires
        all_digits(d@),
    ensures
        r as nat == amount_of(d@, max as nat),
{
    let mut v: u128 = 0;
    let mut over = false;
    let mut i: usize = 0;
    assert(d@.take(0) =~= seq![]);
    while i < d.len()
        invariant
            i <= d.len(),
            all_digits(d@),
            !over ==> v == decimal(d@.take(i as int)) && v <= max,
            over ==> decimal(d@.take(i as int)) > max,
        decreases d.len() - i,
    {
        assert(d@.take(i + 1).drop_last() =~= d@.take(i as int));
        if !over {
            v = v * 10 + d[i] as u128;
            if v > max as u128 {
                over = true;
            }
        }
        i = i + 1;
    }
    assert(d@.take(d.len() as int) =~= d@);
    if d.len() == 0 || over {
        1
    } else {
        v as u64
    }
}

} // verus!
