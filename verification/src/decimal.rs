//! Signed decimal numerals: reading an `i32` from text and writing one.
//!
//! A numeral is an optional sign (`+` or `-`) followed by one or more ASCII
//! digits. Nothing else is accepted: no blanks, no separators, no empty text.

use vstd::prelude::*;
use vstd::string::*;

verus! {

/// Whether `c` is one of the ASCII digits `0` to `9`.
pub open spec fn is_digit(c: char) -> bool {
    '0' <= c <= '9'
}

/// The value of the digit `c`; zero for a character that is no digit.
pub open spec fn digit(c: char) -> nat {
    if is_digit(c) {
        (c as int - '0' as int) as nat
    } else {
        0
    }
}

/// Whether `s` holds digits only.
pub open spec fn all_digits(s: Seq<char>) -> bool {
    forall|i: int| 0 <= i < s.len() ==> is_digit(#[trigger] s[i])
}

/// The number that the digits of `s` write in base ten, most significant first.
pub open spec fn digits_value(s: Seq<char>) -> nat
    decreases s.len(),
{
    if s.len() == 0 {
        0
    } else {
        10 * digits_value(s.drop_last()) + digit(s.last())
    }
}

/// The digits of `s` after its sign, if it has one.
pub open spec fn unsigned_part(s: Seq<char>) -> Seq<char> {
    if s.len() > 0 && (s[0] == '-' || s[0] == '+') {
        s.skip(1)
    } else {
        s
    }
}

/// The integer that `s` writes, where `s` is a numeral whose value fits in an
/// `i32`; `None` for every other text.
pub open spec fn integer_value(s: Seq<char>) -> Option<int> {
    let body = unsigned_part(s);
    if body.len() == 0 || !all_digits(body) {
        None
    } else {
        let v = if s[0] == '-' {
            -(digits_value(body) as int)
        } else {
            digits_value(body) as int
        };
        if i32::MIN <= v <= i32::MAX {
            Some(v)
        } else {
            None
        }
    }
}

/// The digits that write `n` in base ten, without leading zeros.
pub open spec fn decimal_digits(n: nat) -> Seq<char>
    decreases n,
{
    if n < 10 {
        seq![digit_char(n)]
    } else {
        decimal_digits(n / 10).push(digit_char(n % 10))
    }
}

/// The character of the digit `d`, for `d` below ten.
pub open spec fn digit_char(d: nat) -> char {
    if d == 0 {
        '0'
    } else if d == 1 {
        '1'
    } else if d == 2 {
        '2'
    } else if d == 3 {
        '3'
    } else if d == 4 {
        '4'
    } else if d == 5 {
        '5'
    } else if d == 6 {
        '6'
    } else if d == 7 {
        '7'
    } else if d == 8 {
        '8'
    } else {
        '9'
    }
}

/// The numeral of `n`: a minus sign for a negative number, then its digits.
pub open spec fn decimal_text(n: int) -> Seq<char> {
    if n < 0 {
        seq!['-'] + decimal_digits((-n) as nat)
    } else {
        decimal_digits(n as nat)
    }
}

/// A prefix of a digit sequence never writes a larger number than the whole.
pub proof fn lemma_prefix_value(s: Seq<char>, k: int)
    requires
        0 <= k <= s.len(),
    ensures
        digits_value(s.take(k)) <= digits_value(s),
    decreases s.len() - k,
{
    if k == s.len() {
        assert(s.take(k) =~= s);
    } else {
        lemma_prefix_value(s, k + 1);
        assert(s.take(k + 1).drop_last() =~= s.take(k));
    }
}

/// Reads a numeral. Returns its value, or `None` where `text` is no numeral or
/// its value does not fit in an `i32`.
pub fn parse_i32(text: &str) -> (r: Option<i32>)
    ensures
        match r {
            Some(v) => integer_value(text@) == Some(v as int),
            None => integer_value(text@).is_none(),
        },
{
    let ghost s = text@;
    if !text.is_ascii() {
        proof {
            let body = unsigned_part(s);
            if body.len() > 0 && all_digits(body) {
                let i = choose|i: int| 0 <= i < s.len() && !('\0' <= #[trigger] s[i] <= '\u{7f}');
                if body.len() == s.len() {
                    assert(is_digit(body[i]));
                } else if i > 0 {
                    assert(is_digit(body[i - 1]));
                }
            }
        }
        return None;
    }
    let n = text.unicode_len();
    if n == 0 {
        return None;
    }
    let first = text.get_ascii(0);
    let negative = first == 45u8;
    let start: usize = if first == 45u8 || first == 43u8 {
        1
    } else {
        0
    };
    let ghost body = unsigned_part(s);
    assert(body =~= s.skip(start as int));
    if start == n {
        return None;
    }
    let mut acc: u64 = 0;
    let mut i: usize = start;
    while i < n
        invariant
            start <= i <= n,
            n == s.len(),
            s == text@,
            text.is_ascii(),
            body == s.skip(start as int),
            body == unsigned_part(s),
            acc == digits_value(body.take(i - start)),
            acc <= 2147483648,
            all_digits(body.take(i - start)),
        decreases n - i,
    {
        let b = text.get_ascii(i);
        assert(body[i - start] == s[i as int]);
        if b < 48u8 || b > 57u8 {
            assert(!is_digit(body[i - start]));
            return None;
        }
        assert(body.take(i - start + 1).drop_last() =~= body.take(i - start));
        assert(digit(s[i as int]) == b - 48);
        acc = acc * 10 + (b - 48u8) as u64;
        if acc > 2147483648 {
            proof {
                lemma_prefix_value(body, i - start + 1);
            }
            return None;
        }
        i = i + 1;
    }
    assert(body.take(n - start) =~= body);
    if negative {
        Some((-(acc as i64)) as i32)
    } else if acc > 2147483647 {
        None
    } else {
        Some(acc as i32)
    }
}

/// The number that `s` writes, where `s` is an optional plus sign followed by
/// one or more digits whose value fits in a `u64`; `None` for every other text.
pub open spec fn natural_value(s: Seq<char>) -> Option<int> {
    let body = if s.len() > 0 && s[0] == '+' {
        s.skip(1)
    } else {
        s
    };
    if body.len() == 0 || !all_digits(body) || digits_value(body) > u64::MAX {
        None
    } else {
        Some(digits_value(body) as int)
    }
}

/// Reads an unsigned numeral. Returns its value, or `None` where `text` is no
/// such numeral or its value does not fit in a `u64`.
pub fn parse_u64(text: &str) -> (r: Option<u64>)
    ensures
        match r {
            Some(v) => natural_value(text@) == Some(v as int),
            None => natural_value(text@).is_none(),
        },
{
    let ghost s = text@;
    let ghost body = if s.len() > 0 && s[0] == '+' {
        s.skip(1)
    } else {
        s
    };
    if !text.is_ascii() {
        proof {
            if body.len() > 0 && all_digits(body) {
                let i = choose|i: int| 0 <= i < s.len() && !('\0' <= #[trigger] s[i] <= '\u{7f}');
                if body.len() == s.len() {
                    assert(is_digit(body[i]));
                } else if i > 0 {
                    assert(is_digit(body[i - 1]));
                }
            }
        }
        return None;
    }
    let n = text.unicode_len();
    if n == 0 {
        return None;
    }
    let start: usize = if text.get_ascii(0) == 43u8 {
        1
    } else {
        0
    };
    assert(body =~= s.skip(start as int));
    if start == n {
        return None;
    }
    let mut acc: u64 = 0;
    let mut i: usize = start;
    while i < n
        invariant
            start <= i <= n,
            n == s.len(),
            s == text@,
            text.is_ascii(),
            body == s.skip(start as int),
            natural_value(s) == if body.len() == 0 || !all_digits(body) || digits_value(body)
                > u64::MAX {
                None
            } else {
                Some(digits_value(body) as int)
            },
            acc == digits_value(body.take(i - start)),
            all_digits(body.take(i - start)),
        decreases n - i,
    {
        let b = text.get_ascii(i);
        assert(body[i - start] == s[i as int]);
        if b < 48u8 || b > 57u8 {
            assert(!is_digit(body[i - start]));
            return None;
        }
        assert(body.take(i - start + 1).drop_last() =~= body.take(i - start));
        assert(digit(s[i as int]) == b - 48);
        proof {
            lemma_prefix_value(body, i - start + 1);
        }
        let next = match acc.checked_mul(10) {
            Some(tens) => tens.checked_add((b - 48u8) as u64),
            None => None,
        };
        match next {
            Some(v) => {
                acc = v;
            },
            None => {
                return None;
            },
        }
        i = i + 1;
    }
    assert(body.take(n - start) =~= body);
    Some(acc)
}

/// The text of one digit.
fn digit_str(d: u32) -> (r: &'static str)
    requires
        d < 10,
    ensures
        r@ == seq![digit_char(d as nat)],
{
    proof {
        reveal_strlit("0");
        reveal_strlit("1");
        reveal_strlit("2");
        reveal_strlit("3");
        reveal_strlit("4");
        reveal_strlit("5");
        reveal_strlit("6");
        reveal_strlit("7");
        reveal_strlit("8");
        reveal_strlit("9");
    }
    let r = if d == 0 {
        "0"
    } else if d == 1 {
        "1"
    } else if d == 2 {
        "2"
    } else if d == 3 {
        "3"
    } else if d == 4 {
        "4"
    } else if d == 5 {
        "5"
    } else if d == 6 {
        "6"
    } else if d == 7 {
        "7"
    } else if d == 8 {
        "8"
    } else {
        "9"
    };
    assert(r@ =~= seq![digit_char(d as nat)]);
    r
}

/// Appends the digits of `n` to `out`.
fn push_digits(out: &mut String, n: u32)
    ensures
        final(out)@ == old(out)@ + decimal_digits(n as nat),
    decreases n,
{
    if n >= 10 {
        push_digits(out, n / 10);
    }
    out.append(digit_str(n % 10));
    assert(final(out)@ =~= old(out)@ + decimal_digits(n as nat));
}

/// Writes `value` as a numeral.
pub fn i32_to_text(value: i32) -> (r: String)
    ensures
        r@ == decimal_text(value as int),
{
    let mut out = String::new();
    if value < 0 {
        proof {
            reveal_strlit("-");
        }
        out.append("-");
        push_digits(&mut out, (-(value as i64)) as u32);
    } else {
        push_digits(&mut out, value as u32);
    }
    assert(out@ =~= decimal_text(value as int));
    out
}

} // verus!
