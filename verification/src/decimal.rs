//! The decimal notation in which a node's identifier becomes a file name.

use vstd::prelude::*;

verus! {

/// The byte of the plus sign, which may lead a number that is read.
pub const PLUS: u8 = 0x2b;

/// The byte of the digit zero.
pub const ZERO: u8 = 0x30;

pub open spec fn is_digit(b: u8) -> bool {
    ZERO <= b <= ZERO + 9
}

pub open spec fn all_digits(s: Seq<u8>) -> bool {
    forall|i: int| 0 <= i < s.len() ==> is_digit(#[trigger] s[i])
}

/// The digits of `n`, most significant first, without leading zeros.
pub open spec fn decimal_digits(n: nat) -> Seq<u8>
    decreases n,
{
    if n < 10 {
        seq![(ZERO + n) as u8]
    } else {
        decimal_digits(n / 10).push((ZERO + n % 10) as u8)
    }
}

/// The number that a sequence of digits denotes; leading zeros count for
/// nothing and the empty sequence denotes zero.
pub open spec fn decimal_value(digits: Seq<u8>) -> nat
    decreases digits.len(),
{
    if digits.len() == 0 {
        0
    } else {
        decimal_value(digits.drop_last()) * 10 + (digits.last() - ZERO) as nat
    }
}

/// The digits of a text: what follows one leading plus sign, if there is one.
pub open spec fn unsigned_part(text: Seq<u8>) -> Seq<u8> {
    if text.len() > 0 && text[0] == PLUS {
        text.subrange(1, text.len() as int)
    } else {
        text
    }
}

/// The number that a text denotes: an optional plus sign, then at least
/// one digit and nothing else, with a value that 128 bits can hold.
pub open spec fn parsed_decimal(text: Seq<u8>) -> Option<u128> {
    let digits = unsigned_part(text);
    if digits.len() > 0 && all_digits(digits) && decimal_value(digits) <= u128::MAX {
        Some(decimal_value(digits) as u128)
    } else {
        None
    }
}

pub open spec fn ten_to(k: nat) -> nat
    decreases k,
{
    if k == 0 {
        1
    } else {
        10 * ten_to((k - 1) as nat)
    }
}

/// A number below the `k`-th power of ten has at most `k` digits.
pub proof fn lemma_digit_count(n: nat, k: nat)
    requires
        k >= 1,
        n < ten_to(k),
    ensures
        1 <= decimal_digits(n).len() <= k,
    decreases k,
{
    if n >= 10 {
        assert(ten_to(k) == 10 * ten_to((k - 1) as nat));
        if k == 1 {
            assert(ten_to(0) == 1);
        }
        lemma_digit_count(n / 10, (k - 1) as nat);
    }
}

/// Every 128-bit number is written with one to thirty-nine digits.
pub proof fn lemma_digit_count_u128(v: u128)
    ensures
        1 <= decimal_digits(v as nat).len() <= 39,
{
    assert(ten_to(39) == 1000000000000000000000000000000000000000) by {
        reveal_with_fuel(ten_to, 40);
    }
    lemma_digit_count(v as nat, 39);
}

/// The digits of a number are digits, and they denote the number.
pub proof fn lemma_digits_denote(n: nat)
    ensures
        all_digits(decimal_digits(n)),
        decimal_value(decimal_digits(n)) == n,
        decimal_digits(n).len() >= 1,
        decimal_digits(n)[0] != PLUS,
    decreases n,
{
    let d = decimal_digits(n);
    if n < 10 {
        assert(d.drop_last() =~= Seq::<u8>::empty());
        assert(decimal_value(d.drop_last()) == 0);
    } else {
        lemma_digits_denote(n / 10);
        let head = decimal_digits(n / 10);
        assert(d.drop_last() =~= head);
        assert(d.last() == (ZERO + n % 10) as u8);
        assert(d[0] == head[0]);
        assert forall|i: int| 0 <= i < d.len() implies is_digit(#[trigger] d[i]) by {
            if i < head.len() {
                assert(d[i] == head[i]);
            }
        }
    }
}

/// Reading what was written gives the number back.
pub proof fn lemma_decimal_round_trip(v: u128)
    ensures
        parsed_decimal(decimal_digits(v as nat)) == Some(v),
{
    lemma_digits_denote(v as nat);
}

/// Two numbers with the same digits are the same number.
pub proof fn lemma_digits_injective(a: nat, b: nat)
    requires
        decimal_digits(a) == decimal_digits(b),
    ensures
        a == b,
{
    lemma_digits_denote(a);
    lemma_digits_denote(b);
}

/// A prefix of a digit sequence denotes no more than the whole.
pub proof fn lemma_prefix_value(digits: Seq<u8>, i: int)
    requires
        0 <= i <= digits.len(),
        all_digits(digits),
    ensures
        decimal_value(digits.subrange(0, i)) <= decimal_value(digits),
    decreases digits.len() - i,
{
    if i == digits.len() {
        assert(digits.subrange(0, i) =~= digits);
    } else {
        lemma_prefix_value(digits, i + 1);
        let longer = digits.subrange(0, i + 1);
        assert(longer.drop_last() =~= digits.subrange(0, i));
        assert(is_digit(longer.last()));
    }
}

fn write_digits(value: u128, out: &mut Vec<u8>)
    ensures
        final(out)@ == old(out)@ + decimal_digits(value as nat),
    decreases value,
{
    if value >= 10 {
        write_digits(value / 10, out);
    }
    let digit: u8 = (value % 10) as u8;
    out.push(ZERO + digit);
    proof {
        let n = value as nat;
        if value >= 10 {
            assert(out@ =~= old(out)@ + decimal_digits(n / 10).push((ZERO + n % 10) as u8));
        } else {
            assert(out@ =~= old(out)@ + seq![(ZERO + n) as u8]);
        }
    }
}

/// Writes a number in decimal notation.
pub fn encode_decimal(value: u128) -> (digits: Vec<u8>)
    ensures
        digits@ == decimal_digits(value as nat),
{
    let mut digits: Vec<u8> = Vec::new();
    write_digits(value, &mut digits);
    assert(digits@ =~= decimal_digits(value as nat));
    digits
}

/// Reads a number in decimal notation; `None` for a text that is none.
pub fn parse_decimal(text: &[u8]) -> (value: Option<u128>)
    ensures
        value == parsed_decimal(text@),
{
    let len: usize = text.len();
    let start: usize = if len > 0 && text[0] == PLUS { 1 } else { 0 };
    let ghost digits = unsigned_part(text@);
    assert(digits =~= text@.subrange(start as int, len as int));
    if start == len {
        return None;
    }
    let mut acc: u128 = 0;
    let mut i: usize = start;
    while i < len
        invariant
            start <= i <= len,
            len == text@.len(),
            digits == text@.subrange(start as int, len as int),
            digits == unsigned_part(text@),
            all_digits(digits.subrange(0, i - start)),
            acc == decimal_value(digits.subrange(0, i - start)),
        decreases len - i,
    {
        let b: u8 = text[i];
        let ghost seen = digits.subrange(0, i - start);
        let ghost next = digits.subrange(0, i - start + 1);
        assert(next.drop_last() =~= seen);
        assert(next.last() == b);
        if b < ZERO || b > ZERO + 9 {
            assert(!is_digit(digits[i - start]));
            return None;
        }
        assert forall|j: int| 0 <= j < next.len() implies is_digit(#[trigger] next[j]) by {
            if j < seen.len() {
                assert(next[j] == seen[j]);
            }
        }
        let d: u128 = (b - ZERO) as u128;
        if acc > (u128::MAX - d) / 10 {
            proof {
                assert(decimal_value(next) == acc * 10 + d);
                assert(acc * 10 + d > u128::MAX);
                if all_digits(digits) {
                    lemma_prefix_value(digits, i - start + 1);
                }
            }
            return None;
        }
        acc = acc * 10 + d;
        i = i + 1;
    }
    assert(digits.subrange(0, i - start) =~= digits);
    Some(acc)
}

} // verus!
