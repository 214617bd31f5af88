//! Decimal text for identifiers.
//!
//! The address bar carries entity identifiers as decimal text, so the crate
//! needs both directions: printing an `i32` into a path and reading one back
//! out of a path segment, with `0` as the fallback for malformed text.  Both
//! are verified against the spec functions `dec_str` and `parse_i32`, and
//! `lemma_parse_dec_str` proves that they round-trip.

use vstd::prelude::*;
use vstd::string::StrSliceExecFns;
use vstd::string::StringExecFns;

verus! {

/// Whether `c` is a decimal digit.
pub open spec fn is_digit(c: char) -> bool {
    48 <= c as u32 && c as u32 <= 57
}

/// The numeric value of a digit character (meaningful only when `is_digit`).
pub open spec fn digit_of(c: char) -> int {
    c as u32 - 48
}

/// The digit character for a value below ten.
pub open spec fn char_of_digit(d: int) -> char {
    if d == 0 {
        '0'
    } else if d == 1 {
        '1'
    } else if d == 2 {
        '2'
    } else if d == 3 {
        '3'
    } else if d == 4 {
        '4'
    } else if d == 5 {
        '5'
    } else if d == 6 {
        '6'
    } else if d == 7 {
        '7'
    } else if d == 8 {
        '8'
    } else {
        '9'
    }
}

/// The decimal digits of a nonnegative number, most significant first.
pub open spec fn dec_digits(n: int) -> Seq<char>
    recommends
        n >= 0,
    decreases n,
{
    if n <= 9 {
        seq![char_of_digit(n)]
    } else {
        dec_digits(n / 10).push(char_of_digit(n % 10))
    }
}

/// The canonical decimal rendering of an integer, sign included.
pub open spec fn dec_str(n: int) -> Seq<char> {
    if n < 0 {
        seq!['-'] + dec_digits(-n)
    } else {
        dec_digits(n)
    }
}

/// Whether every character of `s` is a decimal digit.
pub open spec fn all_digits(s: Seq<char>) -> bool {
    forall|i: int| 0 <= i < s.len() ==> is_digit(#[trigger] s[i])
}

/// The value of a digit string, most significant digit first.
pub open spec fn digits_val(s: Seq<char>) -> int
    decreases s.len(),
{
    if s.len() == 0 {
        0
    } else {
        digits_val(s.drop_last()) * 10 + digit_of(s.last())
    }
}

/// What `i32` decimal parsing yields: the value when `s` is an optional sign
/// followed by at least one digit and the value fits, `None` otherwise.
pub open spec fn parse_i32(s: Seq<char>) -> Option<int> {
    let signed = s.len() > 0 && (s[0] == '-' || s[0] == '+');
    let mag = if signed {
        s.subrange(1, s.len() as int)
    } else {
        s
    };
    if mag.len() == 0 || !all_digits(mag) {
        None
    } else {
        let v = if s.len() > 0 && s[0] == '-' {
            -digits_val(mag)
        } else {
            digits_val(mag)
        };
        if i32::MIN <= v <= i32::MAX {
            Some(v)
        } else {
            None
        }
    }
}

/// Parsing with a fallback: the parsed value, or `d` when `s` is malformed.
pub open spec fn parse_i32_or(s: Seq<char>, d: i32) -> i32 {
    match parse_i32(s) {
        Some(v) => v as i32,
        None => d,
    }
}

proof fn lemma_digits_val_nonneg(s: Seq<char>)
    requires
        all_digits(s),
    ensures
        digits_val(s) >= 0,
    decreases s.len(),
{
    if s.len() > 0 {
        assert(all_digits(s.drop_last())) by {
            assert(forall|i: int|
                0 <= i < s.drop_last().len() ==> #[trigger] s.drop_last()[i] == s[i]);
        }
        lemma_digits_val_nonneg(s.drop_last());
    }
}

proof fn lemma_digits_val_prefix(s: Seq<char>, n: int)
    requires
        all_digits(s),
        0 <= n <= s.len(),
    ensures
        digits_val(s.subrange(0, n)) <= digits_val(s),
    decreases s.len(),
{
    if n == s.len() {
        assert(s.subrange(0, n) =~= s);
    } else {
        let t = s.drop_last();
        assert(all_digits(t)) by {
            assert(forall|i: int| 0 <= i < t.len() ==> #[trigger] t[i] == s[i]);
        }
        lemma_digits_val_prefix(t, n);
        assert(s.subrange(0, n) =~= t.subrange(0, n));
        lemma_digits_val_nonneg(t);
        assert(digits_val(t) * 10 >= digits_val(t));
    }
}

/// Appends one digit character to `s`.
fn push_digit(s: &mut String, d: u32)
    requires
        d < 10,
    ensures
        final(s)@ == old(s)@ + seq![char_of_digit(d as int)],
{
    if d == 0 {
        s.append("0");
        proof {
            reveal_strlit("0");
            assert(s@ =~= old(s)@ + seq![char_of_digit(d as int)]);
        }
    } else if d == 1 {
        s.append("1");
        proof {
            reveal_strlit("1");
            assert(s@ =~= old(s)@ + seq![char_of_digit(d as int)]);
        }
    } else if d == 2 {
        s.append("2");
        proof {
            reveal_strlit("2");
            assert(s@ =~= old(s)@ + seq![char_of_digit(d as int)]);
        }
    } else if d == 3 {
        s.append("3");
        proof {
            reveal_strlit("3");
            assert(s@ =~= old(s)@ + seq![char_of_digit(d as int)]);
        }
    } else if d == 4 {
        s.append("4");
        proof {
            reveal_strlit("4");
            assert(s@ =~= old(s)@ + seq![char_of_digit(d as int)]);
        }
    } else if d == 5 {
        s.append("5");
        proof {
            reveal_strlit("5");
            assert(s@ =~= old(s)@ + seq![char_of_digit(d as int)]);
        }
    } else if d == 6 {
        s.append("6");
        proof {
            reveal_strlit("6");
            assert(s@ =~= old(s)@ + seq![char_of_digit(d as int)]);
        }
    } else if d == 7 {
        s.append("7");
        proof {
            reveal_strlit("7");
            assert(s@ =~= old(s)@ + seq![char_of_digit(d as int)]);
        }
    } else if d == 8 {
        s.append("8");
        proof {
            reveal_strlit("8");
            assert(s@ =~= old(s)@ + seq![char_of_digit(d as int)]);
        }
    } else {
        s.append("9");
        proof {
            reveal_strlit("9");
            assert(s@ =~= old(s)@ + seq![char_of_digit(d as int)]);
        }
    }
}

/// Appends the decimal digits of `m`, most significant first.
fn push_digits(s: &mut String, m: u32)
    ensures
        final(s)@ == old(s)@ + dec_digits(m as int),
    decreases m,
{
    if m <= 9 {
        push_digit(s, m);
    } else {
        push_digits(s, m / 10);
        push_digit(s, m % 10);
        assert(s@ =~= old(s)@ + dec_digits(m as int));
    }
}

/// Appends the canonical decimal rendering of `n`, sign included.
pub fn push_i32_dec(s: &mut String, n: i32)
    ensures
        final(s)@ == old(s)@ + dec_str(n as int),
{
    if n >= 0 {
        push_digits(s, n as u32);
    } else {
        s.append("-");
        proof {
            reveal_strlit("-");
        }
        let m: u32 = (-(n as i64)) as u32;
        assert(m as int == -(n as int));
        push_digits(s, m);
        assert(s@ =~= old(s)@ + dec_str(n as int));
    }
}

/// Reads a decimal `i32` out of `s`, or returns `d` when `s` is not a
/// well-formed number in range: an optional sign, then at least one digit.
pub fn parse_with_default(s: &str, d: i32) -> (r: i32)
    ensures
        r == parse_i32_or(s@, d),
{
    let len = s.unicode_len();
    let mut start: usize = 0;
    let mut negative = false;
    if len > 0 {
        let c0 = s.get_char(0);
        if c0 == '-' {
            negative = true;
            start = 1;
        } else if c0 == '+' {
            start = 1;
        }
    }
    let ghost mag = s@.subrange(start as int, len as int);
    proof {
        if start == 0 {
            assert(mag =~= s@);
        }
    }
    if start >= len {
        return d;
    }
    let mut acc: u64 = 0;
    let mut j = start;
    while j < len
        invariant
            start <= j <= len,
            len == s@.len(),
            start <= 1,
            mag == s@.subrange(start as int, len as int),
            start == 0 ==> mag == s@,
            (start == 1) <==> (s@.len() > 0 && (s@[0] == '-' || s@[0] == '+')),
            negative <==> (s@.len() > 0 && s@[0] == '-'),
            acc <= 2147483648,
            acc == digits_val(s@.subrange(start as int, j as int)),
            all_digits(s@.subrange(start as int, j as int)),
        decreases len - j,
    {
        let c = s.get_char(j);
        let cv = c as u32;
        if cv < 48 || cv > 57 {
            proof {
                assert(mag[j - start] == s@[j as int]);
                assert(!all_digits(mag));
            }
            return d;
        }
        proof {
            assert(s@.subrange(start as int, j + 1).drop_last() =~= s@.subrange(
                start as int,
                j as int,
            ));
            assert(s@.subrange(start as int, j + 1).last() == s@[j as int]);
        }
        acc = acc * 10 + ((cv - 48) as u64);
        j = j + 1;
        proof {
            assert(forall|i: int|
                0 <= i < j - start ==> #[trigger] s@.subrange(start as int, j as int)[i] == s@[i
                    + start]);
        }
        if acc > 2147483648 {
            proof {
                let p = s@.subrange(start as int, j as int);
                if all_digits(mag) {
                    lemma_digits_val_prefix(mag, j - start);
                    assert(mag.subrange(0, j - start) =~= p);
                    assert(digits_val(mag) > 2147483648);
                } else {
                }
            }
            return d;
        }
    }
    proof {
        assert(s@.subrange(start as int, len as int) =~= s@.subrange(start as int, j as int));
        assert(all_digits(mag));
        assert(mag.len() >= 1);
        assert(digits_val(mag) == acc);
    }
    if negative {
        let r = (-(acc as i64)) as i32;
        assert(r as int == -(acc as int));
        r
    } else {
        if acc > 2147483647 {
            return d;
        }
        acc as i32
    }
}

/// The canonical decimal digits parse back to their own value: `dec_digits`
/// yields nonempty all-digit text whose value is the number itself.
proof fn lemma_dec_digits_wf(n: int)
    requires
        n >= 0,
    ensures
        all_digits(dec_digits(n)),
        dec_digits(n).len() >= 1,
        digits_val(dec_digits(n)) == n,
    decreases n,
{
    if n <= 9 {
        assert(is_digit(char_of_digit(n)));
        assert(digit_of(char_of_digit(n)) == n);
        assert(dec_digits(n).drop_last() =~= Seq::<char>::empty());
        assert(digits_val(Seq::<char>::empty()) == 0);
    } else {
        lemma_dec_digits_wf(n / 10);
        let s = dec_digits(n);
        assert(s.drop_last() =~= dec_digits(n / 10));
        assert(s.last() == char_of_digit(n % 10));
        assert(digit_of(char_of_digit(n % 10)) == n % 10);
        assert(forall|i: int| 0 <= i < s.len() - 1 ==> #[trigger] s[i] == dec_digits(n / 10)[i]);
        vstd::arithmetic::div_mod::lemma_fundamental_div_mod(n, 10);
        assert(digits_val(s) == (n / 10) * 10 + n % 10);
    }
}

/// The canonical decimal rendering is nonempty and consists of digits,
/// possibly after a leading minus sign.
pub proof fn lemma_dec_str_chars(n: i32)
    ensures
        dec_str(n as int).len() >= 1,
        forall|i: int|
            0 <= i < dec_str(n as int).len() ==> (is_digit(#[trigger] dec_str(n as int)[i])
                || dec_str(n as int)[i] == '-'),
{
    if n >= 0 {
        lemma_dec_digits_wf(n as int);
    } else {
        lemma_dec_digits_wf(-(n as int));
        assert(forall|i: int|
            1 <= i < dec_str(n as int).len() ==> #[trigger] dec_str(n as int)[i] == dec_digits(
                -(n as int),
            )[i - 1]);
    }
}

/// Printing then parsing is the identity on every `i32` value.
pub proof fn lemma_parse_dec_str(n: i32)
    ensures
        parse_i32(dec_str(n as int)) == Some(n as int),
{
    if n >= 0 {
        lemma_dec_digits_wf(n as int);
        let s = dec_str(n as int);
        assert(s == dec_digits(n as int));
        assert(is_digit(s[0]));
        assert(s[0] as u32 >= 48);
        assert(s[0] != '-' && s[0] != '+');
    } else {
        lemma_dec_digits_wf(-(n as int));
        let s = dec_str(n as int);
        assert(s[0] == '-');
        assert(s.subrange(1, s.len() as int) =~= dec_digits(-(n as int)));
    }
}

} // verus!
