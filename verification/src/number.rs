use vstd::prelude::*;
use crate::error::IntErrorKind;
use crate::text::chars_of;

verus! {

/// Whether a character is one of `0` to `9`.
pub open spec fn is_decimal_digit(c: char) -> bool {
    48 <= c as u32 && c as u32 <= 57
}

/// The number that a decimal digit stands for.
pub open spec fn digit_value(c: char) -> int {
    c as u32 as int - 48
}

/// Whether every character of a sequence is a decimal digit.
pub open spec fn all_decimal_digits(s: Seq<char>) -> bool {
    forall|i: int| 0 <= i < s.len() ==> is_decimal_digit(#[trigger] s[i])
}

/// The number that a sequence of decimal digits writes, most significant digit
/// first. The empty sequence writes zero.
pub open spec fn decimal_value(digits: Seq<char>) -> int
    decreases digits.len(),
{
    if digits.len() == 0 {
        0
    } else {
        10 * decimal_value(digits.drop_last()) + digit_value(digits.last())
    }
}

/// A numeral without the one `+` that may stand in front of it.
pub open spec fn without_plus_sign(s: Seq<char>) -> Seq<char> {
    if s.len() > 0 && s[0] == '+' {
        s.drop_first()
    } else {
        s
    }
}

/// The number written by an unsigned decimal numeral: an optional `+`, then at
/// least one digit and nothing else. `None` for every other string.
pub open spec fn unsigned_decimal(s: Seq<char>) -> Option<int> {
    let digits = without_plus_sign(s);
    if digits.len() > 0 && all_decimal_digits(digits) {
        Some(decimal_value(digits))
    } else {
        None
    }
}

/// How many digits a text begins with.
pub open spec fn digit_run(s: Seq<char>) -> nat
    decreases s.len(),
{
    if s.len() > 0 && is_decimal_digit(s[0]) {
        1 + digit_run(s.drop_first())
    } else {
        0
    }
}

/// What `parse_u64` returns for each string. A string is read from the left,
/// and the first thing that goes wrong is the reason: an empty string is
/// `Empty`; a sign alone is `InvalidDigit`; digits worth more than `u64::MAX`
/// are `PosOverflow`, whatever follows them; a character that is no digit is
/// `InvalidDigit`.
pub open spec fn parse_u64_spec(s: Seq<char>) -> Result<u64, IntErrorKind> {
    let digits = without_plus_sign(s);
    let run = digits.take(digit_run(digits) as int);
    if s.len() == 0 {
        Err(IntErrorKind::Empty)
    } else if digits.len() == 0 {
        Err(IntErrorKind::InvalidDigit)
    } else if decimal_value(run) > u64::MAX {
        Err(IntErrorKind::PosOverflow)
    } else if run.len() < digits.len() {
        Err(IntErrorKind::InvalidDigit)
    } else {
        Ok(decimal_value(digits) as u64)
    }
}

/// The digits that a text begins with are digits, and the character behind
/// them, if there is one, is none.
pub proof fn lemma_digit_run(s: Seq<char>)
    ensures
        digit_run(s) <= s.len(),
        all_decimal_digits(s.take(digit_run(s) as int)),
        digit_run(s) < s.len() ==> !is_decimal_digit(s[digit_run(s) as int]),
    decreases s.len(),
{
    if s.len() > 0 && is_decimal_digit(s[0]) {
        let rest = s.drop_first();
        lemma_digit_run(rest);
        let k = digit_run(s) as int;
        assert forall|i: int| 0 <= i < s.take(k).len() implies is_decimal_digit(
            #[trigger] s.take(k)[i],
        ) by {
            if i > 0 {
                assert(s.take(k)[i] == rest.take(k - 1)[i - 1]);
            }
        }
        if k < s.len() {
            assert(s[k] == rest[k - 1]);
        }
    }
}

/// A text that has digits up to a place, and none at that place, begins with
/// exactly that many digits.
pub proof fn lemma_digit_run_is(s: Seq<char>, k: int)
    requires
        0 <= k <= s.len(),
        all_decimal_digits(s.take(k)),
        k < s.len() ==> !is_decimal_digit(s[k]),
    ensures
        digit_run(s) == k,
    decreases k,
{
    if k > 0 {
        assert(s.take(k)[0] == s[0]);
        let rest = s.drop_first();
        assert forall|i: int| 0 <= i < rest.take(k - 1).len() implies is_decimal_digit(
            #[trigger] rest.take(k - 1)[i],
        ) by {
            assert(rest.take(k - 1)[i] == s.take(k)[i + 1]);
        }
        if k < s.len() {
            assert(rest[k - 1] == s[k]);
        }
        lemma_digit_run_is(rest, k - 1);
    }
}

/// A text that has digits up to a place begins with at least that many.
pub proof fn lemma_digit_run_at_least(s: Seq<char>, k: int)
    requires
        0 <= k <= s.len(),
        all_decimal_digits(s.take(k)),
    ensures
        digit_run(s) >= k,
    decreases k,
{
    if k > 0 {
        assert(s.take(k)[0] == s[0]);
        let rest = s.drop_first();
        assert forall|i: int| 0 <= i < rest.take(k - 1).len() implies is_decimal_digit(
            #[trigger] rest.take(k - 1)[i],
        ) by {
            assert(rest.take(k - 1)[i] == s.take(k)[i + 1]);
        }
        lemma_digit_run_at_least(rest, k - 1);
    }
}

/// A string is read as a number exactly when it is an unsigned decimal
/// numeral worth at most `u64::MAX`, and then as what the numeral is worth.
pub proof fn lemma_parse_u64_iff_numeral(s: Seq<char>)
    ensures
        match parse_u64_spec(s) {
            Ok(v) => unsigned_decimal(s) == Some(v as int),
            Err(_) => unsigned_decimal(s) matches Some(v) ==> v > u64::MAX,
        },
{
    let digits = without_plus_sign(s);
    lemma_digit_run(digits);
    let run = digits.take(digit_run(digits) as int);
    if digit_run(digits) == digits.len() {
        assert(run =~= digits);
        if digits.len() > 0 {
            lemma_decimal_value_prefix(digits, 0);
        }
    } else {
        assert(!all_decimal_digits(digits));
    }
}

/// The character that writes a number below ten.
pub open spec fn decimal_digit(d: nat) -> char {
    ((48 + d) as u8) as char
}

/// A number written in decimal digits, most significant digit first, without
/// sign and without leading zeros; zero is written `0`.
pub open spec fn decimal_text(n: nat) -> Seq<char>
    decreases n,
{
    if n < 10 {
        seq![decimal_digit(n)]
    } else {
        decimal_text(n / 10).push(decimal_digit(n % 10))
    }
}

/// A number written in decimal digits is a numeral, and the numeral is worth
/// the number.
pub proof fn lemma_decimal_text_value(n: nat)
    ensures
        decimal_text(n).len() > 0,
        all_decimal_digits(decimal_text(n)),
        decimal_value(decimal_text(n)) == n,
        without_plus_sign(decimal_text(n)) == decimal_text(n),
    decreases n,
{
    let text = decimal_text(n);
    if n < 10 {
        assert(text.drop_last() =~= Seq::<char>::empty());
        assert(decimal_value(text.drop_last()) == 0);
        assert(is_decimal_digit(text[0]));
        assert(digit_value(text.last()) == n);
    } else {
        let front = decimal_text(n / 10);
        lemma_decimal_text_value(n / 10);
        assert(text.drop_last() =~= front);
        assert(text.last() == decimal_digit(n % 10));
        assert(is_decimal_digit(text.last()));
        assert forall|i: int| 0 <= i < text.len() implies is_decimal_digit(#[trigger] text[i]) by {
            if i < front.len() {
                assert(text[i] == front[i]);
            }
        }
        assert(text[0] == front[0]);
    }
    assert(text[0] != '+');
}

/// Reading a number that was written in decimal digits gives the number back.
pub proof fn lemma_parse_decimal_text(n: u64)
    ensures
        parse_u64_spec(decimal_text(n as nat)) == Ok::<u64, IntErrorKind>(n),
{
    let text = decimal_text(n as nat);
    lemma_decimal_text_value(n as nat);
    assert(text.take(text.len() as int) =~= text);
    lemma_digit_run_is(text, text.len() as int);
}

/// A numeral is worth at least as much as any of its prefixes, and never less
/// than zero.
pub proof fn lemma_decimal_value_prefix(digits: Seq<char>, k: int)
    requires
        all_decimal_digits(digits),
        0 <= k <= digits.len(),
    ensures
        0 <= decimal_value(digits.take(k)) <= decimal_value(digits),
    decreases digits.len(),
{
    if digits.len() == 0 {
        assert(digits.take(k) =~= digits);
    } else if k == digits.len() {
        assert(digits.take(k) =~= digits);
        assert(is_decimal_digit(digits.last()));
        assert(all_decimal_digits(digits.drop_last()));
        lemma_decimal_value_prefix(digits.drop_last(), k - 1);
    } else {
        assert(is_decimal_digit(digits.last()));
        assert(all_decimal_digits(digits.drop_last()));
        lemma_decimal_value_prefix(digits.drop_last(), k);
        assert(digits.drop_last().take(k) =~= digits.take(k));
    }
}

/// Reads an unsigned decimal numeral of at most 64 bits.
///
/// The string may start with one `+`; after it come one or more digits and
/// nothing else. Anything else, and any number above `u64::MAX`, is refused
/// with the first thing that goes wrong when the string is read from the left.
pub fn parse_u64(s: &str) -> (value: Result<u64, IntErrorKind>)
    ensures
        value == parse_u64_spec(s@),
{
    let chars = chars_of(s);
    let n = chars.len();
    if n == 0 {
        return Err(IntErrorKind::Empty);
    }
    let start: usize = if chars[0] == '+' {
        1
    } else {
        0
    };
    let ghost digits = without_plus_sign(s@);
    assert(digits =~= chars@.skip(start as int));
    if start == n {
        return Err(IntErrorKind::InvalidDigit);
    }
    let mut acc: u64 = 0;
    let mut i: usize = start;
    assert(digits.take(0) =~= Seq::<char>::empty());
    while i < n
        invariant
            start <= i <= n,
            n == chars.len(),
            0 < n - start,
            s@.len() == n,
            digits == chars@.skip(start as int),
            digits == without_plus_sign(s@),
            all_decimal_digits(digits.take(i - start)),
            acc == decimal_value(digits.take(i - start)),
        decreases n - i,
    {
        let c = chars[i];
        let ghost seen = digits.take(i - start);
        let ghost next = digits.take(i - start + 1);
        assert(next.drop_last() =~= seen);
        assert(next.last() == c);
        let code: u32 = c as u32;
        if code < 48 || code > 57 {
            proof {
                assert(!is_decimal_digit(digits[i - start]));
                lemma_digit_run_is(digits, i - start);
            }
            return Err(IntErrorKind::InvalidDigit);
        }
        assert(all_decimal_digits(next)) by {
            assert forall|j: int| 0 <= j < next.len() implies is_decimal_digit(
                #[trigger] next[j],
            ) by {
                if j < seen.len() {
                    assert(next[j] == seen[j]);
                }
            }
        }
        let d: u64 = (code - 48) as u64;
        assert(decimal_value(next) == 10 * acc + d);
        let shifted = match acc.checked_mul(10) {
            Some(m) => m.checked_add(d),
            None => None,
        };
        match shifted {
            Some(v) => {
                acc = v;
            },
            None => {
                proof {
                    let k = i - start + 1;
                    lemma_digit_run(digits);
                    lemma_digit_run_at_least(digits, k);
                    let run = digits.take(digit_run(digits) as int);
                    assert(run.take(k) =~= next);
                    lemma_decimal_value_prefix(run, k);
                }
                return Err(IntErrorKind::PosOverflow);
            },
        }
        i += 1;
    }
    proof {
        assert(digits.take(i - start) =~= digits);
        lemma_digit_run_is(digits, digits.len() as int);
    }
    Ok(acc)
}

} // verus!
