//! Decimal rendering of unsigned integers, as messages and exact big-integer
//! readings carry them.
use vstd::prelude::*;

verus! {

/// The decimal digit character for `d` (`d < 10`).
pub open spec fn digit_char(d: nat) -> char {
    if d == 0 { '0' } else if d == 1 { '1' } else if d == 2 { '2' } else if d == 3 { '3' }
    else if d == 4 { '4' } else if d == 5 { '5' } else if d == 6 { '6' } else if d == 7 { '7' }
    else if d == 8 { '8' } else { '9' }
}

/// The shortest decimal text of `n`: no sign, no leading zero (zero is `"0"`).
pub open spec fn decimal(n: nat) -> Seq<char>
    decreases n,
{
    if n < 10 {
        seq![digit_char(n)]
    } else {
        decimal(n / 10).push(digit_char(n % 10))
    }
}

fn digit_text(d: u128) -> (s: &'static str)
    requires
        d < 10,
    ensures
        s@ == seq![digit_char(d as nat)],
{
    if d == 0 { proof { reveal_strlit("0"); } "0" }
    else if d == 1 { proof { reveal_strlit("1"); } "1" }
    else if d == 2 { proof { reveal_strlit("2"); } "2" }
    else if d == 3 { proof { reveal_strlit("3"); } "3" }
    else if d == 4 { proof { reveal_strlit("4"); } "4" }
    else if d == 5 { proof { reveal_strlit("5"); } "5" }
    else if d == 6 { proof { reveal_strlit("6"); } "6" }
    else if d == 7 { proof { reveal_strlit("7"); } "7" }
    else if d == 8 { proof { reveal_strlit("8"); } "8" }
    else { proof { reveal_strlit("9"); } "9" }
}

/// Decimal text of `n`, exact for every value up to `u128::MAX`.
pub fn decimal_text(n: u128) -> (s: String)
    ensures
        s@ == decimal(n as nat),
    decreases n,
{
    if n < 10 {
        String::from_str(digit_text(n))
    } else {
        let prefix = decimal_text(n / 10);
        let s = prefix.concat(digit_text(n % 10));
        assert(s@ =~= decimal(n as nat));
        s
    }
}

/// The value of a decimal digit character (`'0'..='9'`).
pub open spec fn digit_value(c: char) -> int {
    c as int - '0' as int
}

/// Whether `c` is one of `'0'..='9'`.
pub open spec fn is_digit(c: char) -> bool {
    '0' <= c <= '9'
}

/// The number a string of decimal digits reads as, most significant first.
pub open spec fn digits_value(s: Seq<char>) -> int
    decreases s.len(),
{
    if s.len() == 0 {
        0
    } else {
        10 * digits_value(s.drop_last()) + digit_value(s.last())
    }
}

proof fn lemma_digit_char_value(d: nat)
    requires
        d < 10,
    ensures
        digit_value(digit_char(d)) == d,
        is_digit(digit_char(d)),
        d > 0 ==> digit_char(d) != '0',
{
}

/// Decimal text reads back as the number it renders: it is made of decimal
/// digits only, their radix-10 value is `n`, and it has no leading zero
/// unless `n` is zero.
pub proof fn law_decimal_reads_back(n: nat)
    ensures
        decimal(n).len() >= 1,
        forall|i: int| 0 <= i < decimal(n).len() ==> is_digit(#[trigger] decimal(n)[i]),
        digits_value(decimal(n)) == n,
        n > 0 ==> decimal(n)[0] != '0',
    decreases n,
{
    if n < 10 {
        assert(decimal(n) == seq![digit_char(n)]);
        assert(seq![digit_char(n)].drop_last() =~= Seq::<char>::empty());
        lemma_digit_char_value(n);
        assert(digits_value(Seq::<char>::empty()) == 0);
        assert(digits_value(seq![digit_char(n)]) == 10 * digits_value(Seq::<char>::empty())
            + digit_value(digit_char(n)));
    } else {
        lemma_digit_char_value(n % 10);
        assert(10 * (n / 10) + n % 10 == n);
        law_decimal_reads_back(n / 10);
        let prefix = decimal(n / 10);
        let d = digit_char(n % 10);
        assert(decimal(n) == prefix.push(d));
        assert(prefix.push(d).drop_last() =~= prefix);
        assert(prefix.push(d)[0] == prefix[0]);
        assert(digits_value(prefix.push(d)) == 10 * digits_value(prefix) + digit_value(d));
        assert forall|i: int| 0 <= i < prefix.push(d).len() implies is_digit(
            #[trigger] prefix.push(d)[i],
        ) by {
            if i < prefix.len() {
                assert(prefix.push(d)[i] == prefix[i]);
            }
        }
    }
}

} // verus!
