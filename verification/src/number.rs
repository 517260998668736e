//! Numbers as exchanges write them in strings: whole numbers that are read,
//! and floating-point numbers that are kept as they were written.

use vstd::prelude::*;
use vstd::string::StrSliceExecFns;
use vstd::string::StringExecFns;

verus! {

/// Whether `c` is one of the ten decimal digits.
pub open spec fn is_digit(c: char) -> bool {
    '0' <= c <= '9'
}

/// Whether `c` is a sign.
pub open spec fn is_sign(c: char) -> bool {
    c == '+' || c == '-'
}

/// Whether `text` holds decimal digits only.
pub open spec fn all_digits(text: Seq<char>) -> bool {
    forall|i: int| 0 <= i < text.len() ==> is_digit(#[trigger] text[i])
}

/// The number that a string of decimal digits writes.
pub open spec fn digits_value(digits: Seq<char>) -> nat
    decreases digits.len(),
{
    if digits.len() == 0 {
        0
    } else {
        digits_value(digits.drop_last()) * 10 + (digits.last() as nat - '0' as nat) as nat
    }
}

/// The whole number that `text` writes, where it is one or more decimal
/// digits, and nothing else, that come to no more than a `u64` holds.
pub open spec fn written_integer(text: Seq<char>) -> Option<u64> {
    if text.len() > 0 && all_digits(text) && digits_value(text) <= u64::MAX {
        Some(digits_value(text) as u64)
    } else {
        None
    }
}

/// One more digit makes ten times the number, and the digit more.
proof fn value_with_digit(digits: Seq<char>, c: char)
    requires
        is_digit(c),
    ensures
        digits_value(digits.push(c)) == digits_value(digits) * 10 + (c as nat - '0' as nat),
        digits_value(digits.push(c)) >= digits_value(digits),
{
    assert(digits.push(c).drop_last() =~= digits);
}

/// Reads a whole number: one or more decimal digits and nothing else.
pub fn parse_integer(text: &str) -> (number: Option<u64>)
    ensures
        number == written_integer(text@),
{
    let len = text.unicode_len();
    let mut value: u64 = 0;
    let mut overflow = false;
    let mut i: usize = 0;
    while i < len
        invariant
            i <= len,
            len == text@.len(),
            all_digits(text@.take(i as int)),
            !overflow ==> value == digits_value(text@.take(i as int)),
            overflow ==> digits_value(text@.take(i as int)) > u64::MAX,
        decreases len - i,
    {
        let c = text.get_char(i);
        if !(c >= '0' && c <= '9') {
            return None;
        }
        let digit: u64 = (c as u64) - ('0' as u64);
        proof {
            value_with_digit(text@.take(i as int), c);
            assert(text@.take(i + 1) =~= text@.take(i as int).push(c));
        }
        if overflow || value > (u64::MAX - digit) / 10 {
            overflow = true;
        } else {
            value = value * 10 + digit;
        }
        i += 1;
    }
    assert(text@.take(len as int) =~= text@);
    if len == 0 || overflow {
        None
    } else {
        Some(value)
    }
}

/// Where the digits end that begin at `from`: the place of the first
/// character from there on that is no digit, or the end of the text.
pub open spec fn digits_end(text: Seq<char>, from: int) -> int
    decreases text.len() - from,
{
    if 0 <= from < text.len() && is_digit(text[from]) {
        digits_end(text, from + 1)
    } else {
        from
    }
}

/// Whether `text` from `from` on is the word `lower`, each letter in either
/// case; `upper` is the same word in capitals.
pub open spec fn spells(text: Seq<char>, from: int, lower: Seq<char>, upper: Seq<char>) -> bool {
    &&& text.len() - from == lower.len()
    &&& forall|i: int|
        0 <= i < lower.len() ==> text[from + i] == #[trigger] lower[i] || text[from + i]
            == upper[i]
}

/// Whether `text` from `from` on names infinity or what is no number.
pub open spec fn is_special(text: Seq<char>, from: int) -> bool {
    ||| spells(text, from, "inf"@, "INF"@)
    ||| spells(text, from, "infinity"@, "INFINITY"@)
    ||| spells(text, from, "nan"@, "NAN"@)
}

/// Whether `text` from `at` to its end is an exponent: an `e` in either
/// case, a sign or none, and one or more digits.
pub open spec fn is_exponent(text: Seq<char>, at: int) -> bool {
    let digits = if at + 1 < text.len() && is_sign(text[at + 1]) {
        at + 2
    } else {
        at + 1
    };
    &&& 0 <= at < text.len()
    &&& (text[at] == 'e' || text[at] == 'E')
    &&& digits < text.len()
    &&& digits_end(text, digits) == text.len()
}

/// Whether `text` from `from` to its end is a number in digits: digits, a
/// point or none, digits again, with at least one digit before or after the
/// point, and an exponent or none.
pub open spec fn is_digits_number(text: Seq<char>, from: int) -> bool {
    let whole = digits_end(text, from);
    let pointed = whole < text.len() && text[whole] == '.';
    let end = if pointed {
        digits_end(text, whole + 1)
    } else {
        whole
    };
    let digits = if pointed {
        end - from - 1
    } else {
        end - from
    };
    digits > 0 && (end == text.len() || is_exponent(text, end))
}

/// Whether `text` writes a floating-point number, by the grammar that `std`
/// parses one by: a sign or none, then infinity, not-a-number, or a number
/// in digits. No blank is allowed anywhere.
pub open spec fn is_float_text(text: Seq<char>) -> bool {
    let from: int = if text.len() > 0 && is_sign(text[0]) {
        1
    } else {
        0
    };
    is_special(text, from) || is_digits_number(text, from)
}

/// Where the digits end that begin at `from`.
fn scan_digits(text: &str, len: usize, from: usize) -> (end: usize)
    requires
        len == text@.len(),
        from <= len,
    ensures
        end == digits_end(text@, from as int),
        from <= end <= len,
{
    let mut i = from;
    while i < len
        invariant
            from <= i <= len,
            len == text@.len(),
            digits_end(text@, from as int) == digits_end(text@, i as int),
        decreases len - i,
    {
        let c = text.get_char(i);
        if !(c >= '0' && c <= '9') {
            return i;
        }
        i += 1;
    }
    i
}

/// Whether `text` from `from` on is the word `lower`, in either case.
fn spells_word(text: &str, len: usize, from: usize, lower: &str, upper: &str) -> (same: bool)
    requires
        len == text@.len(),
        from <= len,
        lower@.len() == upper@.len(),
    ensures
        same == spells(text@, from as int, lower@, upper@),
{
    let count = lower.unicode_len();
    if len - from != count {
        return false;
    }
    let mut i: usize = 0;
    while i < count
        invariant
            i <= count,
            count == lower@.len(),
            count == upper@.len(),
            len == text@.len(),
            len - from == count,
            forall|k: int|
                0 <= k < i ==> text@[from + k] == #[trigger] lower@[k] || text@[from + k]
                    == upper@[k],
        decreases count - i,
    {
        let c = text.get_char(from + i);
        if c != lower.get_char(i) && c != upper.get_char(i) {
            assert(!(text@[from + i] == lower@[i as int] || text@[from + i] == upper@[i as int]));
            return false;
        }
        i += 1;
    }
    true
}

/// Whether `text` writes a floating-point number.
pub fn is_float(text: &str) -> (float: bool)
    ensures
        float == is_float_text(text@),
{
    let len = text.unicode_len();
    let mut from: usize = 0;
    if len > 0 {
        let first = text.get_char(0);
        if first == '+' || first == '-' {
            from = 1;
        }
    }
    proof {
        reveal_strlit("inf");
        reveal_strlit("INF");
        reveal_strlit("infinity");
        reveal_strlit("INFINITY");
        reveal_strlit("nan");
        reveal_strlit("NAN");
    }
    if spells_word(text, len, from, "inf", "INF") || spells_word(
        text,
        len,
        from,
        "infinity",
        "INFINITY",
    ) || spells_word(text, len, from, "nan", "NAN") {
        return true;
    }
    let whole = scan_digits(text, len, from);
    let mut pointed = false;
    if whole < len {
        pointed = text.get_char(whole) == '.';
    }
    let end = if pointed {
        scan_digits(text, len, whole + 1)
    } else {
        whole
    };
    let digits = if pointed {
        end - from - 1
    } else {
        end - from
    };
    if digits == 0 {
        return false;
    }
    if end == len {
        return true;
    }
    let mark = text.get_char(end);
    if mark != 'e' && mark != 'E' {
        return false;
    }
    let mut start = end + 1;
    if start < len {
        let sign = text.get_char(start);
        if sign == '+' || sign == '-' {
            start = end + 2;
        }
    }
    if start >= len {
        return false;
    }
    scan_digits(text, len, start) == len
}

/// A floating-point number, kept as the exchange wrote it.
#[derive(Clone, Eq, PartialEq, Hash, Debug)]
pub struct Number {
    text: String,
}

impl View for Number {
    type V = Seq<char>;

    closed spec fn view(&self) -> Seq<char> {
        self.text@
    }
}

impl Number {
    /// Takes `text` for a number where it writes one.
    pub fn parse(text: &str) -> (number: Option<Number>)
        ensures
            match number {
                Some(number) => is_float_text(text@) && number@ == text@,
                None => !is_float_text(text@),
            },
    {
        if is_float(text) {
            Some(Number { text: String::from_str(text) })
        } else {
            None
        }
    }

    /// The number as it was written.
    pub fn as_str(&self) -> (text: &str)
        ensures
            text@ == self@,
    {
        self.text.as_str()
    }
}

} // verus!
