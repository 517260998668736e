//! Text as exchanges want it on the wire. Numbers are written here; case
//! mapping is left to `std` and JSON strings to `serde_json`, and those two
//! calls are taken on trust.

use crate::number::all_digits;
use crate::number::digits_value;
use vstd::prelude::*;
use vstd::string::StringExecFns;

verus! {

/// `text` in lower case, as `str::to_lowercase` gives it.
pub uninterp spec fn lowercased(text: Seq<char>) -> Seq<char>;

/// The JSON text of the string `text`, quotes and escapes included, as
/// `serde_json` writes it.
pub uninterp spec fn json_string_text(text: Seq<char>) -> Seq<char>;

/// Calls `str::to_lowercase`. Trusted: the result is a function of the text
/// alone, named [`lowercased`].
#[verifier::external_body]
pub(crate) fn lowercase(text: &str) -> (lower: String)
    ensures
        lower@ == lowercased(text@),
{
    text.to_lowercase()
}

/// Makes a `serde_json::Value` string of `text` and writes it with the
/// `to_string` of its `Display`. Trusted: the result is a function of the
/// text alone, named [`json_string_text`].
#[verifier::external_body]
pub(crate) fn json_string(text: String) -> (json: String)
    ensures
        json@ == json_string_text(text@),
{
    serde_json::Value::from(text).to_string()
}

/// The strings that `items` hold, in their order.
pub open spec fn texts_of(items: Seq<String>) -> Seq<Seq<char>> {
    items.map_values(|item: String| item@)
}

/// The texts `items` one after the other, with `separator` between each two.
pub open spec fn joined(items: Seq<Seq<char>>, separator: Seq<char>) -> Seq<char>
    decreases items.len(),
{
    if items.len() == 0 {
        Seq::empty()
    } else if items.len() == 1 {
        items[0]
    } else {
        joined(items.drop_last(), separator) + separator + items.last()
    }
}

/// Writes `items` one after the other, with `separator` between each two.
pub fn join(items: &Vec<String>, separator: &str) -> (text: String)
    ensures
        text@ == joined(texts_of(items@), separator@),
{
    let mut text = String::new();
    let mut i: usize = 0;
    while i < items.len()
        invariant
            i <= items.len(),
            text@ == joined(texts_of(items@).take(i as int), separator@),
        decreases items.len() - i,
    {
        if i > 0 {
            text.append(separator);
        }
        text.append(items[i].as_str());
        proof {
            let earlier = texts_of(items@).take(i as int);
            let now = texts_of(items@).take(i + 1);
            assert(now.drop_last() =~= earlier);
            assert(now.last() == items@[i as int]@);
            if i == 0 {
                assert(now[0] == items@[0]@);
            }
            assert(text@ =~= joined(now, separator@));
        }
        i += 1;
    }
    assert(texts_of(items@).take(i as int) =~= texts_of(items@));
    text
}

/// The character that writes the digit `digit`.
pub open spec fn digit_char(digit: nat) -> char {
    seq!['0', '1', '2', '3', '4', '5', '6', '7', '8', '9'][digit as int]
}

/// `number` in decimal digits, without leading zeros.
pub open spec fn decimal_text(number: nat) -> Seq<char>
    decreases number,
{
    if number < 10 {
        seq![digit_char(number)]
    } else {
        decimal_text(number / 10).push(digit_char(number % 10))
    }
}

/// The one-character string of a digit.
fn digit_text(digit: u64) -> (text: &'static str)
    requires
        digit < 10,
    ensures
        text@ == seq![digit_char(digit as nat)],
{
    proof {
        reveal_strlit("0");
        reveal_strlit("1");
        reveal_strlit("2");
        reveal_strlit("3");
        reveal_strlit("4");
        reveal_strlit("5");
        reveal_strlit("6");
        reveal_strlit("7");
        reveal_strlit("8");
        reveal_strlit("9");
    }
    let text = if digit == 0 {
        "0"
    } else if digit == 1 {
        "1"
    } else if digit == 2 {
        "2"
    } else if digit == 3 {
        "3"
    } else if digit == 4 {
        "4"
    } else if digit == 5 {
        "5"
    } else if digit == 6 {
        "6"
    } else if digit == 7 {
        "7"
    } else if digit == 8 {
        "8"
    } else {
        "9"
    };
    assert(text@ =~= seq![digit_char(digit as nat)]);
    text
}

/// Writes `number` in decimal digits, without leading zeros.
pub fn number_text(number: u64) -> (text: String)
    ensures
        text@ == decimal_text(number as nat),
    decreases number,
{
    if number < 10 {
        String::from_str(digit_text(number))
    } else {
        let mut text = number_text(number / 10);
        text.append(digit_text(number % 10));
        text
    }
}

/// What [`decimal_text`] writes is digits only, and they write the number.
pub proof fn decimal_text_reads_back(number: nat)
    ensures
        decimal_text(number).len() > 0,
        all_digits(decimal_text(number)),
        digits_value(decimal_text(number)) == number,
    decreases number,
{
    if number < 10 {
        let text = decimal_text(number);
        assert(text.drop_last() =~= Seq::<char>::empty());
        assert(digits_value(text.drop_last()) == 0);
        assert(text.last() == digit_char(number));
    } else {
        decimal_text_reads_back(number / 10);
        let text = decimal_text(number);
        assert(text.drop_last() =~= decimal_text(number / 10));
        assert(text.last() == digit_char(number % 10));
    }
}

} // verus!
