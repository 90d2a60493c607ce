use vstd::prelude::*;
use vstd::string::*;

verus! {

/// The decimal digit `d` (0 to 9) as text.
pub open spec fn digit_text(d: int) -> Seq<char> {
    if d == 0 {
        "0"@
    } else if d == 1 {
        "1"@
    } else if d == 2 {
        "2"@
    } else if d == 3 {
        "3"@
    } else if d == 4 {
        "4"@
    } else if d == 5 {
        "5"@
    } else if d == 6 {
        "6"@
    } else if d == 7 {
        "7"@
    } else if d == 8 {
        "8"@
    } else {
        "9"@
    }
}

/// The decimal digits of `n`, without leading zeros.
pub open spec fn natural_text(n: nat) -> Seq<char>
    decreases n,
{
    if n < 10 {
        digit_text(n as int)
    } else {
        natural_text(n / 10) + digit_text((n % 10) as int)
    }
}

/// `n` in decimal as `{}` writes an integer: a `-` before the digits of a
/// negative number.
pub open spec fn decimal_text(n: int) -> Seq<char> {
    if n < 0 {
        "-"@ + natural_text((-n) as nat)
    } else {
        natural_text(n as nat)
    }
}

/// The number that a string of decimal digits stands for, read from the
/// left.
pub open spec fn digits_value(s: Seq<char>) -> int
    decreases s.len(),
{
    if s.len() == 0 {
        0
    } else {
        digits_value(s.drop_last()) * 10 + (s.last() as int - '0' as int)
    }
}

/// Each character is a decimal digit.
pub open spec fn all_digits(s: Seq<char>) -> bool {
    forall|i: int| 0 <= i < s.len() ==> '0' <= #[trigger] s[i] <= '9'
}

proof fn lemma_digit_text(d: int)
    requires
        0 <= d < 10,
    ensures
        digit_text(d).len() == 1,
        digit_text(d)[0] as int == '0' as int + d,
{
    reveal_strlit("0");
    reveal_strlit("1");
    reveal_strlit("2");
    reveal_strlit("3");
    reveal_strlit("4");
    reveal_strlit("5");
    reveal_strlit("6");
    reveal_strlit("7");
    reveal_strlit("8");
    reveal_strlit("9");
}

/// The decimal text of a natural number is a string of digits that stands
/// for that very number, with no leading zero (but for 0 itself).
pub proof fn law_natural_text_reads_back(n: nat)
    ensures
        natural_text(n).len() >= 1,
        all_digits(natural_text(n)),
        digits_value(natural_text(n)) == n,
        n > 0 ==> natural_text(n)[0] != '0',
    decreases n,
{
    if n < 10 {
        lemma_digit_text(n as int);
        assert(natural_text(n).drop_last() =~= seq![]);
        assert(digits_value(natural_text(n).drop_last()) == 0);
        let c = natural_text(n)[0];
        assert('0' <= c <= '9');
        assert(all_digits(natural_text(n)));
    } else {
        law_natural_text_reads_back(n / 10);
        lemma_digit_text((n % 10) as int);
        let t = natural_text(n);
        assert(t.drop_last() =~= natural_text(n / 10));
        assert(digits_value(t) == (n / 10) as int * 10 + (n % 10) as int);
        assert((n / 10) as int * 10 + (n % 10) as int == n);
        assert(t[0] == natural_text(n / 10)[0]);
        let c = digit_text((n % 10) as int)[0];
        assert('0' <= c <= '9');
        assert forall|i: int| 0 <= i < t.len() implies '0' <= #[trigger] t[i] <= '9' by {
            if i < t.len() - 1 {
                assert(t[i] == natural_text(n / 10)[i]);
            } else {
                assert(t[i] == c);
            }
        }
        assert(all_digits(t));
    }
}

/// The decimal text of an integer reads back to it: a `-` and the digits of
/// its magnitude where it is negative, else just the digits.
pub proof fn law_decimal_text_reads_back(n: int)
    ensures
        n < 0 ==> decimal_text(n).len() >= 2 && decimal_text(n)[0] == '-' && digits_value(
            decimal_text(n).subrange(1, decimal_text(n).len() as int),
        ) == -n,
        n >= 0 ==> all_digits(decimal_text(n)) && digits_value(decimal_text(n)) == n,
{
    reveal_strlit("-");
    if n < 0 {
        law_natural_text_reads_back((-n) as nat);
        assert(decimal_text(n).subrange(1, decimal_text(n).len() as int) =~= natural_text(
            (-n) as nat,
        ));
    } else {
        law_natural_text_reads_back(n as nat);
    }
}

fn append_digit(s: &mut String, d: u64)
    requires
        d < 10,
    ensures
        final(s)@ == old(s)@ + digit_text(d as int),
{
    if d == 0 {
        s.append("0");
    } else if d == 1 {
        s.append("1");
    } else if d == 2 {
        s.append("2");
    } else if d == 3 {
        s.append("3");
    } else if d == 4 {
        s.append("4");
    } else if d == 5 {
        s.append("5");
    } else if d == 6 {
        s.append("6");
    } else if d == 7 {
        s.append("7");
    } else if d == 8 {
        s.append("8");
    } else {
        s.append("9");
    }
}

fn append_natural(s: &mut String, n: u64)
    ensures
        final(s)@ == old(s)@ + natural_text(n as nat),
    decreases n,
{
    if n >= 10 {
        append_natural(s, n / 10);
        append_digit(s, n % 10);
        assert(final(s)@ =~= old(s)@ + (natural_text((n / 10) as nat) + digit_text(
            (n % 10) as int,
        )));
    } else {
        append_digit(s, n);
    }
}

/// Appends `n` in decimal to `s`.
pub fn append_decimal(s: &mut String, n: i32)
    ensures
        final(s)@ == old(s)@ + decimal_text(n as int),
{
    if n < 0 {
        s.append("-");
        let m = (0 - n as i64) as u64;
        append_natural(s, m);
        assert(final(s)@ =~= old(s)@ + ("-"@ + natural_text((-n) as nat)));
    } else {
        append_natural(s, n as u64);
    }
}

} // verus!
