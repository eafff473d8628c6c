//! Building text: single characters and decimal numbers.

use vstd::prelude::*;

verus! {

/// Appends one character to `out`.
///
/// Stands for `String::push` of the standard library, which adds the
/// character at the end and leaves what was there in place.
#[verifier::external_body]
pub(crate) fn push_char(out: &mut String, c: char)
    ensures
        final(out)@ == old(out)@.push(c),
{
    out.push(c)
}

/// The character that writes the digit `d`.
pub open spec fn digit(d: nat) -> char {
    if d == 0 {
        '0'
    } else if d == 1 {
        '1'
    } else if d == 2 {
        '2'
    } else if d == 3 {
        '3'
    } else if d == 4 {
        '4'
    } else if d == 5 {
        '5'
    } else if d == 6 {
        '6'
    } else if d == 7 {
        '7'
    } else if d == 8 {
        '8'
    } else {
        '9'
    }
}

/// The decimal form of `n`: most significant digit first, no sign, no
/// leading zero, and `"0"` for zero.
pub open spec fn decimal(n: nat) -> Seq<char>
    decreases n,
{
    if n < 10 {
        seq![digit(n)]
    } else {
        decimal(n / 10).push(digit(n % 10))
    }
}

fn digit_char(d: u64) -> (c: char)
    requires
        d < 10,
    ensures
        c == digit(d as nat),
{
    if d == 0 {
        '0'
    } else if d == 1 {
        '1'
    } else if d == 2 {
        '2'
    } else if d == 3 {
        '3'
    } else if d == 4 {
        '4'
    } else if d == 5 {
        '5'
    } else if d == 6 {
        '6'
    } else if d == 7 {
        '7'
    } else if d == 8 {
        '8'
    } else {
        '9'
    }
}

/// Appends the decimal form of `n` to `out`.
pub fn append_decimal(out: &mut String, n: u64)
    ensures
        final(out)@ == old(out)@ + decimal(n as nat),
    decreases n,
{
    if n >= 10 {
        append_decimal(out, n / 10);
    }
    push_char(out, digit_char(n % 10));
}

/// Whether `c` is one of the ten decimal digits.
pub open spec fn is_digit(c: char) -> bool {
    '0' <= c && c <= '9'
}

/// The number that the digit `c` stands for.
pub open spec fn digit_value(c: char) -> nat {
    (c as u32 - '0' as u32) as nat
}

/// The number that a sequence of digits writes in base ten; zero for the
/// empty sequence.
pub open spec fn decimal_value(digits: Seq<char>) -> nat
    decreases digits.len(),
{
    if digits.len() == 0 {
        0
    } else {
        decimal_value(digits.drop_last()) * 10 + digit_value(digits.last())
    }
}

/// Whether every character of `text` is a decimal digit.
pub open spec fn all_digits(text: Seq<char>) -> bool {
    forall|i: int| 0 <= i < text.len() ==> is_digit(#[trigger] text[i])
}

/// `text` without a leading plus sign, if it has one.
pub open spec fn without_sign(text: Seq<char>) -> Seq<char> {
    if text.len() > 0 && text[0] == '+' {
        text.drop_first()
    } else {
        text
    }
}

/// The number that `text` writes, if it writes one that fits in `usize`.
///
/// A number is an optional plus sign followed by one or more decimal digits
/// and nothing else: no spaces, no minus sign, no separators.
pub open spec fn parsed_number(text: Seq<char>) -> Option<usize> {
    let digits = without_sign(text);
    if digits.len() > 0 && all_digits(digits) && decimal_value(digits) <= usize::MAX {
        Some(decimal_value(digits) as usize)
    } else {
        None
    }
}

/// A sequence of digits is worth at least as much as any of its prefixes.
proof fn lemma_decimal_value_grows(digits: Seq<char>, k: int)
    requires
        0 <= k <= digits.len(),
    ensures
        decimal_value(digits.take(k)) <= decimal_value(digits),
    decreases digits.len() - k,
{
    if k == digits.len() {
        assert(digits.take(k) =~= digits);
    } else {
        lemma_decimal_value_grows(digits, k + 1);
        assert(digits.take(k + 1).drop_last() =~= digits.take(k));
    }
}

/// The decimal form of a number is made of digits, and they write that
/// number.
pub proof fn lemma_decimal_writes_the_number(n: nat)
    ensures
        decimal(n).len() > 0,
        all_digits(decimal(n)),
        decimal_value(decimal(n)) == n,
    decreases n,
{
    let last = if n < 10 {
        n
    } else {
        n % 10
    };
    assert(is_digit(digit(last)) && digit_value(digit(last)) == last);
    assert(decimal(n).last() == digit(last));
    if n < 10 {
        assert(decimal(n).drop_last() =~= Seq::<char>::empty());
        assert(decimal_value(decimal(n).drop_last()) == 0);
    } else {
        lemma_decimal_writes_the_number(n / 10);
        assert(decimal(n).drop_last() =~= decimal(n / 10));
    }
}

/// Reading what was written gives the number back: the decimal form of a
/// number that fits in `usize` is read as that number.
pub proof fn law_written_numbers_are_read_back(n: usize)
    ensures
        parsed_number(decimal(n as nat)) == Some(n),
{
    lemma_decimal_writes_the_number(n as nat);
}

/// Reads `text` as a number.
pub fn parse_number(text: &str) -> (number: Option<usize>)
    ensures
        number == parsed_number(text@),
{
    let mut value: usize = 0;
    let mut any = false;
    let mut signed = false;
    let ghost digits = without_sign(text@);
    let ghost mut seen: int = 0;
    for c in it: text.chars()
        invariant
            it.seq() == text@,
            digits == without_sign(text@),
            signed <==> (it.index() > 0 && text@[0] == '+'),
            seen == it.index() - (if signed { 1int } else { 0int }),
            0 <= seen <= digits.len(),
            any <==> seen > 0,
            all_digits(digits.take(seen)),
            value == decimal_value(digits.take(seen)),
    {
        assert(c == text@[it.index() as int]);
        if c == '+' && !any && !signed {
            signed = true;
            assert(digits.take(0) =~= Seq::<char>::empty());
        } else if '0' <= c && c <= '9' {
            assert(digits[seen] == c);
            assert(digits.take(seen + 1).drop_last() =~= digits.take(seen));
            let d: usize = (c as u32 - '0' as u32) as usize;
            proof {
                lemma_decimal_value_grows(digits, seen + 1);
            }
            let next = match value.checked_mul(10) {
                Some(tens) => tens.checked_add(d),
                None => None,
            };
            match next {
                Some(n) => {
                    value = n;
                    any = true;
                    proof {
                        seen = seen + 1;
                    }
                },
                None => {
                    assert(!all_digits(digits) || decimal_value(digits) > usize::MAX);
                    return None;
                },
            }
        } else {
            assert(!is_digit(digits[seen]));
            return None;
        }
    }
    assert(digits.take(seen) =~= digits);
    if any {
        Some(value)
    } else {
        None
    }
}

} // verus!
