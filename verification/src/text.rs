//! Text helpers: comparison, shortening, and the decimal form of a number.

use vstd::prelude::*;
use vstd::string::*;

verus! {

/// What [`truncate`] puts where it cut.
pub open spec fn ellipsis() -> Seq<char> {
    "…"@
}

/// `s` if it has at most `max` characters, else its first `max` characters
/// followed by the ellipsis.
pub open spec fn truncated(s: Seq<char>, max: nat) -> Seq<char> {
    if s.len() <= max {
        s
    } else {
        s.take(max as int) + ellipsis()
    }
}

/// Shortens `s` to at most `max` characters and an ellipsis.
pub fn truncate(s: &str, max: usize) -> (res: String)
    ensures
        res@ == truncated(s@, max as nat),
{
    if s.unicode_len() <= max {
        s.to_owned()
    } else {
        let mut res = s.substring_char(0, max).to_owned();
        res.append("…");
        res
    }
}

/// Whether two texts are the same, character by character.
pub fn same_text(left: &str, right: &str) -> (res: bool)
    ensures
        res == (left@ == right@),
{
    left.to_owned() == right.to_owned()
}

/// `c` is one of `0` to `9`.
pub open spec fn is_digit(c: char) -> bool {
    '0' <= c <= '9'
}

/// The number that the digit `c` stands for.
pub open spec fn digit_value(c: char) -> nat {
    (c as int - '0' as int) as nat
}

/// The digit that stands for `d`, a number below ten.
pub open spec fn digit_char(d: nat) -> char {
    ('0' as int + d) as char
}

/// The number that a sequence of digits stands for; the empty one stands for
/// zero.
pub open spec fn digits_value(s: Seq<char>) -> nat
    decreases s.len(),
{
    if s.len() == 0 {
        0
    } else {
        digits_value(s.drop_last()) * 10 + digit_value(s.last())
    }
}

/// The decimal form of `n`, without leading zeros.
pub open spec fn decimal(n: nat) -> Seq<char>
    decreases n,
{
    if n < 10 {
        seq![digit_char(n)]
    } else {
        decimal(n / 10).push(digit_char(n % 10))
    }
}

/// `s` without the plus sign that it may start with.
pub open spec fn without_plus(s: Seq<char>) -> Seq<char> {
    if s.len() > 0 && s[0] == '+' {
        s.skip(1)
    } else {
        s
    }
}

/// `s` is a number that fits in 32 bits: an optional plus sign, then at least
/// one digit, and nothing else.
pub open spec fn is_u32_text(s: Seq<char>) -> bool {
    let digits = without_plus(s);
    &&& digits.len() > 0
    &&& forall|i: int| 0 <= i < digits.len() ==> is_digit(#[trigger] digits[i])
    &&& digits_value(digits) <= u32::MAX
}

/// The number that `s` spells, if it is one that fits in 32 bits.
pub open spec fn u32_of_text(s: Seq<char>) -> Option<u32> {
    if is_u32_text(s) {
        Some(digits_value(without_plus(s)) as u32)
    } else {
        None
    }
}

/// Digits to the right make a number no smaller.
proof fn lemma_digits_value_grows(s: Seq<char>, i: int)
    requires
        0 <= i <= s.len(),
    ensures
        digits_value(s.take(i)) <= digits_value(s),
    decreases s.len(),
{
    if i == s.len() {
        assert(s.take(i) =~= s);
    } else {
        assert(s.drop_last().take(i) =~= s.take(i));
        lemma_digits_value_grows(s.drop_last(), i);
    }
}

/// Reads a 32-bit number in decimal.
pub fn parse_u32(raw: &str) -> (res: Option<u32>)
    ensures
        res == u32_of_text(raw@),
{
    let len: usize = raw.unicode_len();
    let start: usize = if len > 0 && raw.get_char(0) == '+' {
        1
    } else {
        0
    };
    let ghost digits = without_plus(raw@);
    if start == len {
        return None;
    }
    let mut value: u64 = 0;
    let mut i: usize = start;
    while i < len
        invariant
            start <= i <= len,
            len == raw@.len(),
            start <= 1,
            digits == without_plus(raw@),
            digits == raw@.skip(start as int),
            value == digits_value(digits.take(i - start)),
            value <= u32::MAX,
            forall|j: int| 0 <= j < i - start ==> is_digit(#[trigger] digits[j]),
        decreases len - i,
    {
        let c: char = raw.get_char(i);
        assert(digits[i - start] == c);
        if c < '0' || c > '9' {
            return None;
        }
        value = value * 10 + (c as u64 - '0' as u64);
        proof {
            assert(digits.take(i + 1 - start).drop_last() =~= digits.take(i - start));
            lemma_digits_value_grows(digits, i + 1 - start);
        }
        if value > 0xffff_ffff {
            return None;
        }
        i = i + 1;
    }
    assert(digits.take(len - start) =~= digits);
    Some(value as u32)
}

/// The digit that stands for `d`.
fn digit_text(d: u32) -> (res: &'static str)
    requires
        d < 10,
    ensures
        res@ == seq![digit_char(d as nat)],
{
    proof {
        reveal_strlit("0");
        reveal_strlit("1");
        reveal_strlit("2");
        reveal_strlit("3");
        reveal_strlit("4");
        reveal_strlit("5");
        reveal_strlit("6");
        reveal_strlit("7");
        reveal_strlit("8");
        reveal_strlit("9");
    }
    let res: &'static str = match d {
        0 => "0",
        1 => "1",
        2 => "2",
        3 => "3",
        4 => "4",
        5 => "5",
        6 => "6",
        7 => "7",
        8 => "8",
        _ => "9",
    };
    assert(res@ =~= seq![digit_char(d as nat)]);
    res
}

/// Writes a number in decimal.
pub fn decimal_text(n: u32) -> (res: String)
    ensures
        res@ == decimal(n as nat),
    decreases n,
{
    if n < 10 {
        digit_text(n).to_owned()
    } else {
        let mut res = decimal_text(n / 10);
        res.append(digit_text(n % 10));
        assert(res@ =~= decimal(n as nat));
        res
    }
}

/// The decimal form of a number is a row of digits that stands for the number.
proof fn lemma_decimal(n: nat)
    ensures
        decimal(n).len() > 0,
        forall|i: int| 0 <= i < decimal(n).len() ==> is_digit(#[trigger] decimal(n)[i]),
        digits_value(decimal(n)) == n,
    decreases n,
{
    if n < 10 {
        let s = seq![digit_char(n)];
        assert(decimal(n) == s);
        assert(s.drop_last() =~= Seq::<char>::empty());
        assert(digits_value(s.drop_last()) == 0);
        assert(s.last() == digit_char(n));
    } else {
        lemma_decimal(n / 10);
        let s = decimal(n);
        assert(s.drop_last() =~= decimal(n / 10));
        assert(s.last() == digit_char(n % 10));
    }
}

/// Writing a 32-bit number in decimal and reading it back gives the number.
pub proof fn law_decimal_reads_back(n: u32)
    ensures
        u32_of_text(decimal(n as nat)) == Some(n),
{
    lemma_decimal(n as nat);
    let s = decimal(n as nat);
    assert(is_digit(s[0]));
    assert(without_plus(s) == s);
}

/// A shortened text has at most `max` characters and the ellipsis, it starts as
/// the text does, and shortening leaves alone a text that is short enough.
pub proof fn law_truncated(s: Seq<char>, max: nat)
    ensures
        truncated(s, max).len() <= max + 1,
        s.len() <= max ==> truncated(s, max) == s,
        s.len() > max ==> truncated(s, max).len() == max + 1 && truncated(s, max).take(max as int)
            == s.take(max as int) && truncated(s, max).last() == '…',
{
    reveal_strlit("…");
    if s.len() > max {
        assert(truncated(s, max).take(max as int) =~= s.take(max as int));
    }
}

/// A number is read digit by digit, from the left: the first digit, which a plus
/// sign may come before, stands for itself, every further digit makes ten times
/// the number so far and itself, and there is no number any more once a character
/// is not a digit or the number does not fit in 32 bits.
pub proof fn law_number_is_read_digit_by_digit(s: Seq<char>, c: char)
    ensures
        u32_of_text(Seq::empty()) is None,
        u32_of_text(seq!['+']) is None,
        s.len() == 0 || s == seq!['+'] ==> u32_of_text(s.push(c)) == if '0' <= c <= '9' {
            Some((c as int - '0' as int) as u32)
        } else {
            None
        },
        s.len() > 0 && s != seq!['+'] ==> u32_of_text(s.push(c)) == match u32_of_text(s) {
            Some(n) => if '0' <= c <= '9' && n * 10 + (c as int - '0' as int) <= u32::MAX {
                Some((n * 10 + (c as int - '0' as int)) as u32)
            } else {
                None
            },
            None => None,
        },
{
    assert(without_plus(seq!['+']) =~= Seq::<char>::empty());
    let longer = s.push(c);
    let digits = without_plus(longer);
    if s.len() == 0 || s == seq!['+'] {
        if s.len() == 0 && c == '+' {
            assert(digits =~= Seq::<char>::empty());
        } else {
            assert(digits =~= seq![c]);
            assert(digits[0] == c);
            assert(digits.drop_last() =~= Seq::<char>::empty());
            assert(digits_value(digits.drop_last()) == 0);
        }
    } else {
        assert(digits =~= without_plus(s).push(c));
        assert(digits.drop_last() =~= without_plus(s));
        assert(digits.last() == c);
        if s[0] == '+' && s.len() == 1 {
            assert(s =~= seq!['+']);
        }
        assert(without_plus(s).len() > 0);
        let before = without_plus(s);
        if is_u32_text(longer) {
            assert forall|i: int| 0 <= i < before.len() implies is_digit(#[trigger] before[i]) by {
                assert(digits[i] == before[i]);
            }
            assert(is_digit(digits[digits.len() - 1]));
        }
        if is_u32_text(s) && is_digit(c) {
            assert forall|i: int| 0 <= i < digits.len() implies is_digit(#[trigger] digits[i]) by {
                if i < before.len() {
                    assert(digits[i] == before[i]);
                }
            }
        }
    }
}

/// The decimal form of a number has digits only, and starts with a zero only if
/// it is that zero.
pub proof fn law_decimal_is_plain(n: nat)
    ensures
        decimal(n).len() > 0,
        forall|i: int| 0 <= i < decimal(n).len() ==> '0' <= #[trigger] decimal(n)[i] <= '9',
        decimal(n)[0] == '0' ==> decimal(n).len() == 1,
    decreases n,
{
    lemma_decimal(n);
    assert forall|i: int| 0 <= i < decimal(n).len() implies '0' <= #[trigger] decimal(n)[i]
        <= '9' by {
        assert(is_digit(decimal(n)[i]));
    }
    if n >= 10 {
        law_decimal_is_plain(n / 10);
        assert(decimal(n)[0] == decimal(n / 10)[0]);
        if decimal(n)[0] == '0' {
            let front = decimal(n / 10);
            lemma_decimal(n / 10);
            assert(front =~= seq!['0']);
            assert(front.drop_last() =~= Seq::<char>::empty());
            assert(digits_value(front.drop_last()) == 0);
            assert(digits_value(front) == 0);
        }
    }
}

} // verus!
