//! Decimal numbers and suffixes in text, as the file names of frames and
//! the rows of the frame log need them.

use vstd::prelude::*;

verus! {

/// The character of a decimal digit.
pub open spec fn digit_char(digit: int) -> char {
    if digit == 0 {
        '0'
    } else if digit == 1 {
        '1'
    } else if digit == 2 {
        '2'
    } else if digit == 3 {
        '3'
    } else if digit == 4 {
        '4'
    } else if digit == 5 {
        '5'
    } else if digit == 6 {
        '6'
    } else if digit == 7 {
        '7'
    } else if digit == 8 {
        '8'
    } else {
        '9'
    }
}

/// The decimal digits of a number, the most significant first, without
/// leading zeros.
pub open spec fn decimal(n: nat) -> Seq<char>
    decreases n,
{
    if n < 10 {
        seq![digit_char(n as int)]
    } else {
        decimal(n / 10).push(digit_char((n % 10) as int))
    }
}

/// `count` zeros.
pub open spec fn zeros(count: nat) -> Seq<char> {
    Seq::new(count, |i: int| '0')
}

/// The decimal digits of a number, with zeros in front of them where they
/// are fewer than `width`.
pub open spec fn zero_padded(n: nat, width: nat) -> Seq<char> {
    if decimal(n).len() < width {
        zeros((width - decimal(n).len()) as nat) + decimal(n)
    } else {
        decimal(n)
    }
}

/// The number that a decimal digit stands for.
pub open spec fn digit_value(digit: char) -> nat {
    if digit == '1' {
        1
    } else if digit == '2' {
        2
    } else if digit == '3' {
        3
    } else if digit == '4' {
        4
    } else if digit == '5' {
        5
    } else if digit == '6' {
        6
    } else if digit == '7' {
        7
    } else if digit == '8' {
        8
    } else if digit == '9' {
        9
    } else {
        0
    }
}

/// The number that a row of decimal digits stands for.
pub open spec fn number_of(digits: Seq<char>) -> nat
    decreases digits.len(),
{
    if digits.len() == 0 {
        0
    } else {
        number_of(digits.drop_last()) * 10 + digit_value(digits.last())
    }
}

/// Whether `text` ends with `suffix`.
pub open spec fn has_suffix(text: Seq<char>, suffix: Seq<char>) -> bool {
    suffix.len() <= text.len() && text.subrange(text.len() - suffix.len(), text.len() as int)
        == suffix
}

/// Every number has at least one digit, and one digit more than its tenth
/// where it is 10 or more.
pub proof fn lemma_decimal_len(n: nat)
    ensures
        decimal(n).len() >= 1,
        n < 10 ==> decimal(n).len() == 1,
        n >= 10 ==> decimal(n).len() == decimal(n / 10).len() + 1,
{
}

/// The digits of a number stand for that number.
pub proof fn lemma_number_of_decimal(n: nat)
    ensures
        number_of(decimal(n)) == n,
    decreases n,
{
    if n < 10 {
        assert(decimal(n).drop_last() =~= Seq::<char>::empty());
        assert(number_of(decimal(n).drop_last()) == 0);
    } else {
        lemma_number_of_decimal(n / 10);
        assert(decimal(n).drop_last() =~= decimal(n / 10));
    }
}

/// Zeros in front of a row of digits do not change the number it stands for.
pub proof fn lemma_number_of_leading_zeros(count: nat, digits: Seq<char>)
    ensures
        number_of(zeros(count) + digits) == number_of(digits),
    decreases digits.len(), count,
{
    let all = zeros(count) + digits;
    if digits.len() > 0 {
        lemma_number_of_leading_zeros(count, digits.drop_last());
        assert(all.drop_last() =~= zeros(count) + digits.drop_last());
    } else if count > 0 {
        lemma_number_of_leading_zeros((count - 1) as nat, digits);
        assert(all.drop_last() =~= zeros((count - 1) as nat) + digits);
    }
}

/// A number written with leading zeros is read back as it was.
pub proof fn lemma_number_of_zero_padded(n: nat, width: nat)
    ensures
        number_of(zero_padded(n, width)) == n,
{
    lemma_number_of_decimal(n);
    if decimal(n).len() < width {
        lemma_number_of_leading_zeros((width - decimal(n).len()) as nat, decimal(n));
    }
}

fn digit_text(digit: u64) -> (text: &'static str)
    requires
        digit < 10,
    ensures
        text@ == seq![digit_char(digit as int)],
{
    proof {
        reveal_strlit("0");
        reveal_strlit("1");
        reveal_strlit("2");
        reveal_strlit("3");
        reveal_strlit("4");
        reveal_strlit("5");
        reveal_strlit("6");
        reveal_strlit("7");
        reveal_strlit("8");
        reveal_strlit("9");
    }
    let text = if digit == 0 {
        "0"
    } else if digit == 1 {
        "1"
    } else if digit == 2 {
        "2"
    } else if digit == 3 {
        "3"
    } else if digit == 4 {
        "4"
    } else if digit == 5 {
        "5"
    } else if digit == 6 {
        "6"
    } else if digit == 7 {
        "7"
    } else if digit == 8 {
        "8"
    } else {
        "9"
    };
    assert(text@ =~= seq![digit_char(digit as int)]);
    text
}

/// Appends the decimal digits of `n`.
pub fn push_decimal(text: &mut String, n: u64)
    ensures
        final(text)@ == old(text)@ + decimal(n as nat),
    decreases n,
{
    if n >= 10 {
        push_decimal(text, n / 10);
    }
    text.append(digit_text(n % 10));
    proof {
        if n >= 10 {
            assert(text@ =~= old(text)@ + decimal((n / 10) as nat).push(
                digit_char((n % 10) as int),
            ));
        } else {
            assert(text@ =~= old(text)@ + decimal(n as nat));
        }
    }
}

/// How many decimal digits `n` has.
pub fn decimal_len(n: u64) -> (len: usize)
    ensures
        len == decimal(n as nat).len(),
        1 <= len <= 20,
    decreases n,
{
    if n >= 10 {
        let shorter = decimal_len(n / 10);
        proof {
            lemma_decimal_len(n as nat);
            lemma_at_most_twenty_digits(n);
        }
        shorter + 1
    } else {
        1
    }
}

/// A 64-bit number has at most twenty decimal digits.
pub proof fn lemma_at_most_twenty_digits(n: u64)
    ensures
        decimal(n as nat).len() <= 20,
{
    reveal_with_fuel(decimal, 21);
}

/// Appends the decimal digits of `n`, after as many zeros as they are short
/// of `width` digits.
pub fn push_zero_padded(text: &mut String, n: u64, width: usize)
    ensures
        final(text)@ == old(text)@ + zero_padded(n as nat, width as nat),
{
    let digits = decimal_len(n);
    let mut padding: usize = 0;
    proof {
        reveal_strlit("0");
        assert(text@ =~= old(text)@ + zeros(0));
    }
    while digits < width && padding < width - digits
        invariant
            digits == decimal(n as nat).len(),
            digits < width ==> padding <= width - digits,
            digits >= width ==> padding == 0,
            text@ == old(text)@ + zeros(padding as nat),
        decreases width - padding,
    {
        text.append("0");
        proof {
            reveal_strlit("0");
            assert(text@ =~= old(text)@ + zeros((padding + 1) as nat));
        }
        padding = padding + 1;
    }
    push_decimal(text, n);
    proof {
        assert(text@ =~= old(text)@ + zero_padded(n as nat, width as nat));
    }
}

/// Whether `text` ends with `suffix`.
pub fn ends_with(text: &str, suffix: &str) -> (found: bool)
    ensures
        found == has_suffix(text@, suffix@),
{
    let len = text.unicode_len();
    let tail = suffix.unicode_len();
    if tail > len {
        return false;
    }
    let shift = len - tail;
    let mut at: usize = 0;
    while at < tail
        invariant
            len == text@.len(),
            tail == suffix@.len(),
            shift == len - tail,
            at <= tail,
            forall|k: int| 0 <= k < at ==> text@[shift + k] == suffix@[k],
        decreases tail - at,
    {
        if text.get_char(shift + at) != suffix.get_char(at) {
            proof {
                assert(text@.subrange(shift as int, len as int)[at as int] == text@[shift + at]);
            }
            return false;
        }
        at = at + 1;
    }
    assert(text@.subrange(shift as int, len as int) =~= suffix@);
    true
}

} // verus!
