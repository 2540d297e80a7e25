//! Unsigned decimal numbers as text: reading one from a string and writing one out.

use vstd::prelude::*;

verus! {

/// Why a text is not an unsigned decimal number that fits a machine word.
#[derive(Debug, Clone, Copy, PartialEq, Eq, Structural)]
pub enum ParseIntFailure {
    /// The text has no characters at all.
    Empty,
    /// The text holds a character that is not a decimal digit (an optional leading `+` aside),
    /// or it is a lone `+`.
    InvalidDigit,
    /// The digits write a number above `usize::MAX`.
    PosOverflow,
}

/// The words that say what `cause` is.
pub open spec fn failure_text(cause: ParseIntFailure) -> Seq<char> {
    match cause {
        ParseIntFailure::Empty => "cannot parse integer from empty string"@,
        ParseIntFailure::InvalidDigit => "invalid digit found in string"@,
        ParseIntFailure::PosOverflow => "number too large to fit in target type"@,
    }
}

impl ParseIntFailure {
    /// Says in words why the text was not a number.
    pub fn describe(&self) -> (text: &'static str)
        ensures
            text@ == failure_text(*self),
    {
        match self {
            ParseIntFailure::Empty => "cannot parse integer from empty string",
            ParseIntFailure::InvalidDigit => "invalid digit found in string",
            ParseIntFailure::PosOverflow => "number too large to fit in target type",
        }
    }
}

/// Whether `c` is one of the ASCII digits `0` to `9`.
pub open spec fn is_digit(c: char) -> bool {
    '0' as u32 <= c as u32 <= '9' as u32
}

/// The value of the digit `c`.
pub open spec fn digit_value(c: char) -> nat
    recommends
        is_digit(c),
{
    (c as u32 - '0' as u32) as nat
}

/// The character that writes the digit `d`.
pub open spec fn digit_char(d: nat) -> char
    recommends
        d < 10,
{
    ('0' as u32 + d) as char
}

/// Whether every character of `s` is a digit.
pub open spec fn all_digits(s: Seq<char>) -> bool {
    forall|i: int| 0 <= i < s.len() ==> is_digit(#[trigger] s[i])
}

/// The number that the digits `s` write, most significant digit first. The empty sequence
/// writes zero.
pub open spec fn digits_value(s: Seq<char>) -> nat
    decreases s.len(),
{
    if s.len() == 0 {
        0
    } else {
        digits_value(s.drop_last()) * 10 + digit_value(s.last())
    }
}

/// How many characters at the front of `s` are digits.
pub open spec fn leading_digits(s: Seq<char>) -> nat
    decreases s.len(),
{
    if s.len() > 0 && is_digit(s[0]) {
        1 + leading_digits(s.drop_first())
    } else {
        0
    }
}

/// The text of a number without the `+` that may precede it.
pub open spec fn unsigned_part(s: Seq<char>) -> Seq<char> {
    if s.len() > 0 && s[0] == '+' {
        s.drop_first()
    } else {
        s
    }
}

/// What reading `s` as an unsigned decimal number gives.
///
/// A number is an optional `+` followed by one or more digits and nothing else. The text is
/// read from the left: it is too large as soon as the digits read so far exceed `usize::MAX`,
/// whatever follows them, and otherwise invalid if anything but a digit is met.
pub open spec fn parse_number_spec(s: Seq<char>) -> Result<usize, ParseIntFailure> {
    let body = unsigned_part(s);
    let run = body.take(leading_digits(body) as int);
    if s.len() == 0 {
        Err(ParseIntFailure::Empty)
    } else if digits_value(run) > usize::MAX {
        Err(ParseIntFailure::PosOverflow)
    } else if body.len() == 0 || run.len() < body.len() {
        Err(ParseIntFailure::InvalidDigit)
    } else {
        Ok(digits_value(body) as usize)
    }
}

/// The shortest decimal writing of `n`: no sign, no leading zero but for zero itself.
pub open spec fn decimal_digits(n: nat) -> Seq<char>
    decreases n,
{
    if n < 10 {
        seq![digit_char(n)]
    } else {
        decimal_digits(n / 10).push(digit_char(n % 10))
    }
}

/// Reading more digits never gives a smaller number.
pub proof fn lemma_digits_value_grows(s: Seq<char>, k: int)
    requires
        0 <= k <= s.len(),
    ensures
        digits_value(s.take(k)) <= digits_value(s),
    decreases s.len() - k,
{
    if k == s.len() {
        assert(s.take(k) =~= s);
    } else {
        lemma_digits_value_grows(s.drop_last(), k);
        assert(s.drop_last().take(k) =~= s.take(k));
    }
}

/// The digits at the front of `s` end at `k` when the first `k` characters are digits and the
/// next one, if there is one, is not.
pub proof fn lemma_leading_digits(s: Seq<char>, k: int)
    requires
        0 <= k <= s.len(),
        all_digits(s.take(k)),
        k < s.len() ==> !is_digit(s[k]),
    ensures
        leading_digits(s) == k,
    decreases k,
{
    if k > 0 {
        assert(is_digit(s.take(k)[0]));
        let rest = s.drop_first();
        assert forall|i: int| 0 <= i < k - 1 implies is_digit(#[trigger] rest.take(k - 1)[i]) by {
            assert(rest.take(k - 1)[i] == s.take(k)[i + 1]);
        }
        lemma_leading_digits(rest, k - 1);
    }
}

/// Every character of the decimal writing of a number is a digit, and there is at least one.
pub proof fn lemma_decimal_digits_are_digits(n: nat)
    ensures
        decimal_digits(n).len() > 0,
        all_digits(decimal_digits(n)),
    decreases n,
{
    if n >= 10 {
        lemma_decimal_digits_are_digits(n / 10);
    }
}

/// The decimal writing of `n` writes `n`.
pub proof fn lemma_decimal_digits_value(n: nat)
    ensures
        digits_value(decimal_digits(n)) == n,
    decreases n,
{
    if n < 10 {
        let s = decimal_digits(n);
        assert(s.drop_last().len() == 0);
        assert(digits_value(s) == digits_value(s.drop_last()) * 10 + digit_value(s.last()));
    } else {
        lemma_decimal_digits_value(n / 10);
        let s = decimal_digits(n);
        assert(s.drop_last() =~= decimal_digits(n / 10));
        assert(s.last() == digit_char(n % 10));
    }
}

/// Two numbers with the same decimal writing are the same number.
pub proof fn lemma_decimal_digits_differ(n: nat, m: nat)
    requires
        n != m,
    ensures
        decimal_digits(n) != decimal_digits(m),
{
    lemma_decimal_digits_value(n);
    lemma_decimal_digits_value(m);
}

/// Writing a number that fits a machine word and reading it back gives the number: reading
/// is a left inverse of writing.
pub proof fn lemma_write_then_read(n: nat)
    requires
        n <= usize::MAX,
    ensures
        parse_number_spec(decimal_digits(n)) == Ok::<usize, ParseIntFailure>(n as usize),
{
    let s = decimal_digits(n);
    lemma_decimal_digits_are_digits(n);
    lemma_decimal_digits_value(n);
    assert(is_digit(s[0]));
    assert(unsigned_part(s) == s);
    assert(s.take(s.len() as int) =~= s);
    lemma_leading_digits(s, s.len() as int);
}

/// Reads `text` as an unsigned decimal number, in one pass over its characters.
pub fn parse_number(text: &str) -> (r: Result<usize, ParseIntFailure>)
    ensures
        r == parse_number_spec(text@),
{
    let ghost body = unsigned_part(text@);
    let ghost start: int = text@.len() - body.len();
    let mut acc: usize = 0;
    let mut first = true;
    let mut digit_seen = false;
    for c in it: text.chars()
        invariant
            it.seq() == text@,
            body == unsigned_part(text@),
            start == text@.len() - body.len(),
            first == (it.index() == 0),
            first ==> acc == 0,
            !first ==> start <= it.index(),
            digit_seen == (!first && it.index() > start),
            !first ==> all_digits(body.take(it.index() - start)),
            !first ==> acc == digits_value(body.take(it.index() - start)),
    {
        if first && c == '+' {
            assert(body.take(0).len() == 0);
        } else {
            let ghost k = it.index() - start;
            assert(body[k] == c);
            assert(body.take(0).len() == 0);
            let code = c as u32;
            assert(code == body[k] as u32);
            assert(is_digit(body[k]) ==> digit_value(body[k]) == code - '0' as u32);
            if !('0' as u32 <= code && code <= '9' as u32) {
                proof {
                    lemma_leading_digits(body, k);
                }
                return Err(ParseIntFailure::InvalidDigit);
            }
            let d: usize = (code - '0' as u32) as usize;
            proof {
                let longer = body.take(k + 1);
                assert(longer.drop_last() =~= body.take(k));
                assert(longer.last() == c);
                assert(digits_value(longer) == acc * 10 + d);
                assert forall|j: int| 0 <= j < k + 1 implies is_digit(#[trigger] longer[j]) by {
                    if j < k {
                        assert(longer[j] == body.take(k)[j]);
                    }
                }
                // The digits at the front of `body` reach at least to `k + 1`.
                let m = leading_digits(body) as int;
                lemma_leading_digits_bounds(body);
                if m < k + 1 {
                    assert(is_digit(longer[m]));
                }
                assert(body.take(m).take(k + 1) =~= longer);
                lemma_digits_value_grows(body.take(m), k + 1);
            }
            let scaled = match acc.checked_mul(10) {
                Some(v) => v,
                None => {
                    return Err(ParseIntFailure::PosOverflow);
                },
            };
            acc = match scaled.checked_add(d) {
                Some(v) => v,
                None => {
                    return Err(ParseIntFailure::PosOverflow);
                },
            };
            digit_seen = true;
        }
        first = false;
    }
    if first {
        return Err(ParseIntFailure::Empty);
    }
    proof {
        assert(body.take(body.len() as int) =~= body);
        lemma_leading_digits(body, body.len() as int);
    }
    if digit_seen {
        Ok(acc)
    } else {
        Err(ParseIntFailure::InvalidDigit)
    }
}

/// The digits at the front of `s` are digits, are no more than `s` has, and are followed by
/// something else or by nothing.
pub proof fn lemma_leading_digits_bounds(s: Seq<char>)
    ensures
        leading_digits(s) <= s.len(),
        all_digits(s.take(leading_digits(s) as int)),
        leading_digits(s) < s.len() ==> !is_digit(s[leading_digits(s) as int]),
    decreases s.len(),
{
    if s.len() > 0 && is_digit(s[0]) {
        let rest = s.drop_first();
        lemma_leading_digits_bounds(rest);
        let m = leading_digits(rest) as int;
        assert forall|i: int| 0 <= i < m + 1 implies is_digit(#[trigger] s.take(m + 1)[i]) by {
            if i > 0 {
                assert(s.take(m + 1)[i] == rest.take(m)[i - 1]);
            }
        }
    }
}

/// The one-character text of the digit `d`.
fn digit_text(d: usize) -> (text: &'static str)
    requires
        d < 10,
    ensures
        text@ == seq![digit_char(d as nat)],
{
    proof {
        reveal_strlit("0");
        reveal_strlit("1");
        reveal_strlit("2");
        reveal_strlit("3");
        reveal_strlit("4");
        reveal_strlit("5");
        reveal_strlit("6");
        reveal_strlit("7");
        reveal_strlit("8");
        reveal_strlit("9");
    }
    let text = match d {
        0 => "0",
        1 => "1",
        2 => "2",
        3 => "3",
        4 => "4",
        5 => "5",
        6 => "6",
        7 => "7",
        8 => "8",
        _ => "9",
    };
    assert(text@ =~= seq![digit_char(d as nat)]);
    text
}

/// Writes `n` in decimal, in the shortest form.
pub fn write_number(n: usize) -> (text: String)
    ensures
        text@ == decimal_digits(n as nat),
    decreases n,
{
    if n < 10 {
        String::from_str(digit_text(n))
    } else {
        let mut text = write_number(n / 10);
        text.append(digit_text(n % 10));
        assert(text@ =~= decimal_digits(n as nat));
        text
    }
}

} // verus!
