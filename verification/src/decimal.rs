use vstd::prelude::*;

verus! {

/// The decimal digit `'0'`..`'9'` for `d` below ten.
pub open spec fn digit_char(d: nat) -> char {
    seq!['0', '1', '2', '3', '4', '5', '6', '7', '8', '9'][d as int]
}

/// Whether `c` is one of the ASCII digits `'0'`..`'9'`.
pub open spec fn is_digit(c: char) -> bool {
    '0' <= c <= '9'
}

/// The value of the ASCII digit `c`.
pub open spec fn digit_value(c: char) -> nat {
    (c as int - '0' as int) as nat
}

/// The decimal writing of `n`, without sign or leading zeros.
pub open spec fn decimal_digits(n: nat) -> Seq<char>
    decreases n,
{
    if n < 10 {
        seq![digit_char(n)]
    } else {
        decimal_digits(n / 10).push(digit_char(n % 10))
    }
}

/// The number that the digits `s` write in base ten.
pub open spec fn digits_value(s: Seq<char>) -> nat
    decreases s.len(),
{
    if s.len() == 0 {
        0
    } else {
        digits_value(s.drop_last()) * 10 + digit_value(s.last())
    }
}

/// Whether every character of `s` is a digit.
pub open spec fn all_digits(s: Seq<char>) -> bool {
    forall|i: int| 0 <= i < s.len() ==> #[trigger] is_digit(s[i])
}

/// How `str::parse::<u16>` reads `s`: an optional `+`, then at least one
/// ASCII digit and nothing else, of a value that fits in a `u16`.
pub open spec fn parsed_u16(s: Seq<char>) -> Option<u16> {
    let digits = if s.len() > 0 && s[0] == '+' {
        s.drop_first()
    } else {
        s
    };
    if digits.len() > 0 && all_digits(digits) && digits_value(digits) <= u16::MAX {
        Some(digits_value(digits) as u16)
    } else {
        None
    }
}

/// The one-character text of the digit `d`.
fn digit_text(d: usize) -> (t: &'static str)
    requires
        d < 10,
    ensures
        t@ == seq![digit_char(d as nat)],
{
    proof {
        reveal_strlit("0");
        reveal_strlit("1");
        reveal_strlit("2");
        reveal_strlit("3");
        reveal_strlit("4");
        reveal_strlit("5");
        reveal_strlit("6");
        reveal_strlit("7");
        reveal_strlit("8");
        reveal_strlit("9");
    }
    if d == 0 {
        "0"
    } else if d == 1 {
        "1"
    } else if d == 2 {
        "2"
    } else if d == 3 {
        "3"
    } else if d == 4 {
        "4"
    } else if d == 5 {
        "5"
    } else if d == 6 {
        "6"
    } else if d == 7 {
        "7"
    } else if d == 8 {
        "8"
    } else {
        "9"
    }
}

/// The decimal writing of `n`, as `n.to_string()` gives it.
pub fn decimal_string(n: usize) -> (s: String)
    ensures
        s@ == decimal_digits(n as nat),
    decreases n,
{
    if n < 10 {
        String::from_str(digit_text(n))
    } else {
        let mut s = decimal_string(n / 10);
        s.append(digit_text(n % 10));
        s
    }
}

/// The digits of a prefix never write more than the digits of a longer prefix.
proof fn lemma_prefix_value_grows(s: Seq<char>, i: int, j: int)
    requires
        0 <= i <= j <= s.len(),
    ensures
        digits_value(s.take(i)) <= digits_value(s.take(j)),
    decreases j - i,
{
    if i < j {
        lemma_prefix_value_grows(s, i, j - 1);
        assert(s.take(j).drop_last() =~= s.take(j - 1));
    }
}

/// The value of `s` from its position `start` on, read as `str::parse::<u16>`
/// reads the digits.
fn parse_digits(s: &str, start: usize) -> (r: Option<u16>)
    requires
        start <= s@.len(),
    ensures
        ({
            let digits = s@.skip(start as int);
            r == (if digits.len() > 0 && all_digits(digits) && digits_value(digits) <= u16::MAX {
                Some(digits_value(digits) as u16)
            } else {
                None
            })
        }),
{
    let len = s.unicode_len();
    let ghost digits = s@.skip(start as int);
    if start == len {
        return None;
    }
    let mut value: u32 = 0;
    let mut i = start;
    while i < len
        invariant
            start <= i <= len,
            len == s@.len(),
            digits == s@.skip(start as int),
            all_digits(digits.take(i - start)),
            value == digits_value(digits.take(i - start)),
            value <= u16::MAX,
        decreases len - i,
    {
        let c = s.get_char(i);
        let k = i - start;
        assert(digits[k as int] == c);
        assert(digits.take(k + 1).drop_last() =~= digits.take(k as int));
        if !('0' <= c && c <= '9') {
            assert(!is_digit(digits[k as int]));
            assert(!all_digits(digits));
            return None;
        }
        let d = (c as u32) - ('0' as u32);
        let next = value * 10 + d;
        assert(digits_value(digits.take(k + 1)) == next);
        assert(all_digits(digits.take(k + 1)));
        if next > 65535 {
            proof {
                if all_digits(digits) {
                    lemma_prefix_value_grows(digits, k + 1, digits.len() as int);
                    assert(digits.take(digits.len() as int) =~= digits);
                }
            }
            return None;
        }
        value = next;
        i = i + 1;
    }
    assert(digits.take(len - start) =~= digits);
    Some(value as u16)
}

/// Reads `s` as `str::parse::<u16>` does: an optional `+`, then ASCII digits
/// of a value up to 65535; `None` for anything else.
pub fn parse_u16(s: &str) -> (r: Option<u16>)
    ensures
        r == parsed_u16(s@),
{
    let len = s.unicode_len();
    if len > 0 && s.get_char(0) == '+' {
        assert(s@.skip(1) =~= s@.drop_first());
        parse_digits(s, 1)
    } else {
        assert(s@.skip(0) =~= s@);
        parse_digits(s, 0)
    }
}

/// Each digit below ten is written by a digit character of that value.
proof fn lemma_digit_char(d: nat)
    requires
        d < 10,
    ensures
        is_digit(digit_char(d)),
        digit_value(digit_char(d)) == d,
{
    let t = seq!['0', '1', '2', '3', '4', '5', '6', '7', '8', '9'];
    assert(t[0] == '0' && t[1] == '1' && t[2] == '2' && t[3] == '3' && t[4] == '4');
    assert(t[5] == '5' && t[6] == '6' && t[7] == '7' && t[8] == '8' && t[9] == '9');
}

/// The decimal writing of a number is made of digits, starts with a digit,
/// and writes that number.
pub proof fn lemma_decimal_digits_value(n: nat)
    ensures
        decimal_digits(n).len() > 0,
        all_digits(decimal_digits(n)),
        digits_value(decimal_digits(n)) == n,
    decreases n,
{
    if n < 10 {
        lemma_digit_char(n);
        assert(decimal_digits(n).drop_last() =~= Seq::<char>::empty());
        assert(digits_value(decimal_digits(n).drop_last()) == 0);
    } else {
        lemma_digit_char(n % 10);
        lemma_decimal_digits_value(n / 10);
        let s = decimal_digits(n);
        assert(s.drop_last() =~= decimal_digits(n / 10));
        assert(s.last() == digit_char(n % 10));
        assert(digits_value(s) == digits_value(decimal_digits(n / 10)) * 10 + n % 10);
        assert((n / 10) * 10 + n % 10 == n);
        assert forall|i: int| 0 <= i < s.len() implies #[trigger] is_digit(s[i]) by {
            if i < s.len() - 1 {
                assert(s[i] == decimal_digits(n / 10)[i]);
            }
        }
    }
}

/// The decimal writing of a number has no leading zero: it is "0" for zero,
/// and starts with a digit other than '0' otherwise.
pub proof fn lemma_decimal_no_leading_zero(n: nat)
    ensures
        n == 0 ==> decimal_digits(n) == seq!['0'],
        n > 0 ==> decimal_digits(n)[0] != '0',
    decreases n,
{
    if n < 10 {
        lemma_digit_char(n);
        assert(decimal_digits(n) =~= seq![digit_char(n)]);
        if n == 0 {
            let t = seq!['0', '1', '2', '3', '4', '5', '6', '7', '8', '9'];
            assert(t[0] == '0');
        }
    } else {
        lemma_decimal_no_leading_zero(n / 10);
        lemma_decimal_digits_value(n / 10);
        assert(decimal_digits(n)[0] == decimal_digits(n / 10)[0]);
    }
}

/// Reading back the decimal writing of a number up to 65535 gives that number.
pub proof fn lemma_parse_decimal_roundtrip(n: u16)
    ensures
        parsed_u16(decimal_digits(n as nat)) == Some(n),
{
    lemma_decimal_digits_value(n as nat);
    let s = decimal_digits(n as nat);
    assert(is_digit(s[0]));
}

} // verus!
