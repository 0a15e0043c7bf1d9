//! Decimal numerals.
use vstd::arithmetic::div_mod::lemma_div_denominator;
use vstd::arithmetic::power::{lemma_pow0, lemma_pow1, lemma_pow_adds, lemma_pow_positive, pow};
use vstd::prelude::*;

verus! {

/// The character of the digit `d`.
pub open spec fn digit(d: nat) -> char
    recommends
        d < 10,
{
    ('0' as nat + d) as char
}

/// The decimal numeral of `n`: most significant digit first, without leading zeros.
pub open spec fn decimal(n: nat) -> Seq<char>
    decreases n,
{
    if n < 10 {
        seq![digit(n)]
    } else {
        decimal(n / 10).push(digit(n % 10))
    }
}

/// The number that a sequence of digit characters stands for, read from the left.
pub open spec fn value(numeral: Seq<char>) -> int
    decreases numeral.len(),
{
    if numeral.len() == 0 {
        0
    } else {
        10 * value(numeral.drop_last()) + (numeral.last() as int - '0' as int)
    }
}

/// A numeral reads back as the number that it was written for.
pub proof fn law_decimal_reads_back(n: nat)
    ensures
        value(decimal(n)) == n,
    decreases n,
{
    reveal_with_fuel(value, 2);
    if n < 10 {
        assert(decimal(n).drop_last() =~= Seq::<char>::empty());
    } else {
        law_decimal_reads_back(n / 10);
        assert(decimal(n).drop_last() =~= decimal(n / 10));
    }
}

/// A numeral has as many digits as the number needs and no more, and each of them is the
/// character of the number's digit in that decimal place.
pub proof fn law_decimal_digits(n: nat)
    ensures
        decimal(n).len() >= 1,
        n < pow(10, decimal(n).len()),
        decimal(n).len() > 1 ==> pow(10, (decimal(n).len() - 1) as nat) <= n,
        forall|i: int|
            0 <= i < decimal(n).len() ==> #[trigger] decimal(n)[i] as int == '0' as int + n as int
                / pow(10, (decimal(n).len() - 1 - i) as nat) % 10,
    decreases n,
{
    if n < 10 {
        lemma_pow0(10);
        lemma_pow1(10);
    } else {
        let front = decimal(n / 10);
        let len = decimal(n).len();
        law_decimal_digits(n / 10);
        assert(len == front.len() + 1);
        lemma_pow0(10);
        lemma_pow1(10);
        lemma_pow_adds(10, 1, front.len());
        lemma_pow_adds(10, 1, (front.len() - 1) as nat);
        assert(pow(10, (front.len() - 1) as nat) <= n / 10) by {
            if front.len() == 1 {
                assert(n / 10 >= 1);
            }
        }
        assert forall|i: int| 0 <= i < len implies #[trigger] decimal(n)[i] as int == '0' as int
            + n as int / pow(10, (len - 1 - i) as nat) % 10 by {
            if i < front.len() {
                let place = (front.len() - 1 - i) as nat;
                assert(decimal(n)[i] == front[i]);
                lemma_pow_positive(10, place);
                lemma_pow_adds(10, 1, place);
                lemma_div_denominator(n as int, 10, pow(10, place));
            }
        }
    }
}

/// The digit `d` as text.
fn digit_text(d: u64) -> (text: &'static str)
    requires
        d < 10,
    ensures
        text@ == seq![digit(d as nat)],
{
    proof {
        reveal_strlit("0");
        reveal_strlit("1");
        reveal_strlit("2");
        reveal_strlit("3");
        reveal_strlit("4");
        reveal_strlit("5");
        reveal_strlit("6");
        reveal_strlit("7");
        reveal_strlit("8");
        reveal_strlit("9");
    }
    match d {
        0 => "0",
        1 => "1",
        2 => "2",
        3 => "3",
        4 => "4",
        5 => "5",
        6 => "6",
        7 => "7",
        8 => "8",
        _ => "9",
    }
}

/// Appends the decimal numeral of `n` to `text`.
pub(crate) fn push_decimal(text: &mut String, n: u64)
    ensures
        final(text)@ == old(text)@ + decimal(n as nat),
    decreases n,
{
    if n >= 10 {
        push_decimal(text, n / 10);
    }
    text.append(digit_text(n % 10));
    assert(text@ =~= old(text)@ + decimal(n as nat));
}

} // verus!
