use barter_data::number::{is_float, parse_integer, Number};
use barter_data::time::{Timestamp, MAX_EPOCH_MS};

const TEXTS: [&str; 70] = [
    "0.0010", "0.0020", "1000", "0", "007", "12.5", "43250.19000000", "", ".", ".5", "5.", "1.2.3",
    "1..2", "-1", "+1", "+", "-", "+-1", "1e3", "1E3", "1e+3", "1e-3", "1e", "1e+", "e3", ".e3",
    "1.e3", ".5e3", "5.e-3", "1e3.5", "1e3e4", " 1", "1 ", "1,5", "abc", "NaN", "nan", "NAN",
    "+nan", "-NaN", "inf", "INF", "Inf", "-inf", "+infinity", "Infinity", "INFINITY", "infinit",
    "infinityy", "in", "i", "na", "nanx", "0x10", "1_000", "١", "18446744073709551616",
    "99999999999999999999999999999999999999999999", "0.000000000000000000000000000000000001",
    "1e400", "1e-400", "-0", "-.5", "+5.", "--1", "1-", "1+1", "1.5f", "١.٥", "1e٣",
];

#[test]
fn float_texts_are_those_that_parse_as_floats() {
    for text in TEXTS {
        assert_eq!(is_float(text), text.parse::<f64>().is_ok(), "{:?}", text);
    }
}

#[test]
fn number_keeps_the_text_it_was_given() {
    for text in TEXTS {
        match Number::parse(text) {
            Some(number) => {
                assert!(is_float(text));
                assert_eq!(number.as_str(), text);
            }
            None => assert!(!is_float(text), "{:?}", text),
        }
    }
    assert_eq!(Number::parse("0.0010").unwrap().as_str().parse::<f64>(), Ok(0.0010));
    assert_eq!(Number::parse("-1e3").unwrap().as_str().parse::<f64>(), Ok(-1000.0));
    assert_eq!(Number::parse("1e3"), Number::parse("1e3"));
    assert_ne!(Number::parse("1e3"), Number::parse("1000"));
    assert_eq!(Number::parse("1e"), None);
}

#[test]
fn whole_numbers_are_read_exactly() {
    assert_eq!(parse_integer("0"), Some(0));
    assert_eq!(parse_integer("007"), Some(7));
    assert_eq!(parse_integer("1630048897897"), Some(1630048897897));
    assert_eq!(parse_integer("18446744073709551615"), Some(u64::MAX));
    assert_eq!(parse_integer("18446744073709551616"), None);
    assert_eq!(parse_integer("99999999999999999999999"), None);
    for text in ["", "+1", "-1", "1.0", "1e3", " 1", "1 ", "١", "abc"] {
        assert_eq!(parse_integer(text), None, "{:?}", text);
    }
}

#[test]
fn timestamp_splits_milliseconds() {
    assert_eq!(Timestamp::from_epoch_ms(0), Some(Timestamp { secs: 0, nanos: 0 }));
    assert_eq!(
        Timestamp::from_epoch_ms(1638747719999),
        Some(Timestamp { secs: 1638747719, nanos: 999_000_000 })
    );
    assert_eq!(
        Timestamp::from_epoch_ms(1638747660000),
        Some(Timestamp { secs: 1638747660, nanos: 0 })
    );
    assert_eq!(Timestamp::default(), Timestamp { secs: 0, nanos: 0 });
}

#[test]
fn timestamp_ends_where_a_datetime_ends() {
    assert_eq!(MAX_EPOCH_MS, chrono::DateTime::<chrono::Utc>::MAX_UTC.timestamp_millis() as u64);
    let last = Timestamp::from_epoch_ms(MAX_EPOCH_MS).unwrap();
    assert_eq!(last, Timestamp { secs: 8_210_266_876_799, nanos: 999_000_000 });
    assert!(chrono::DateTime::from_timestamp(last.secs, last.nanos).is_some());
    assert_eq!(Timestamp::from_epoch_ms(MAX_EPOCH_MS + 1), None);
    assert!(chrono::DateTime::from_timestamp(8_210_266_876_800, 0).is_none());
    assert_eq!(Timestamp::from_epoch_ms(u64::MAX), None);
}
