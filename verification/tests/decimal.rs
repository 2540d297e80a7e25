use question_api::decimal::{parse_number, write_number, ParseIntFailure};
use std::num::IntErrorKind;

fn std_outcome(text: &str) -> Result<usize, ParseIntFailure> {
    match text.parse::<usize>() {
        Ok(n) => Ok(n),
        Err(e) => match e.kind() {
            IntErrorKind::Empty => Err(ParseIntFailure::Empty),
            IntErrorKind::InvalidDigit => Err(ParseIntFailure::InvalidDigit),
            IntErrorKind::PosOverflow => Err(ParseIntFailure::PosOverflow),
            other => panic!("unexpected kind {:?}", other),
        },
    }
}

#[test]
fn parse_number_reads_plain_numbers() {
    assert_eq!(parse_number("0"), Ok(0));
    assert_eq!(parse_number("7"), Ok(7));
    assert_eq!(parse_number("42"), Ok(42));
    assert_eq!(parse_number("1234567890"), Ok(1234567890));
}

#[test]
fn parse_number_accepts_a_leading_plus_and_leading_zeros() {
    assert_eq!(parse_number("+5"), Ok(5));
    assert_eq!(parse_number("007"), Ok(7));
    assert_eq!(parse_number("+000"), Ok(0));
}

#[test]
fn parse_number_of_empty_text_is_empty() {
    assert_eq!(parse_number(""), Err(ParseIntFailure::Empty));
}

#[test]
fn parse_number_refuses_what_is_not_a_digit() {
    assert_eq!(parse_number("abc"), Err(ParseIntFailure::InvalidDigit));
    assert_eq!(parse_number("12a"), Err(ParseIntFailure::InvalidDigit));
    assert_eq!(parse_number("-1"), Err(ParseIntFailure::InvalidDigit));
    assert_eq!(parse_number("+"), Err(ParseIntFailure::InvalidDigit));
    assert_eq!(parse_number("-"), Err(ParseIntFailure::InvalidDigit));
    assert_eq!(parse_number("++1"), Err(ParseIntFailure::InvalidDigit));
    assert_eq!(parse_number(" 1"), Err(ParseIntFailure::InvalidDigit));
    assert_eq!(parse_number("1 "), Err(ParseIntFailure::InvalidDigit));
    assert_eq!(parse_number("1_000"), Err(ParseIntFailure::InvalidDigit));
    assert_eq!(parse_number("\u{663}"), Err(ParseIntFailure::InvalidDigit));
}

#[test]
fn parse_number_reads_the_largest_number_and_refuses_the_next() {
    let max = usize::MAX.to_string();
    assert_eq!(parse_number(&max), Ok(usize::MAX));
    let mut next = max.clone();
    let last = next.pop().unwrap();
    next.push(((last as u8) + 1) as char);
    assert_eq!(parse_number(&next), Err(ParseIntFailure::PosOverflow));
    let longer = format!("{}0", max);
    assert_eq!(parse_number(&longer), Err(ParseIntFailure::PosOverflow));
}

#[test]
fn parse_number_reports_what_comes_first() {
    // Too large before the letter is reached.
    assert_eq!(
        parse_number("99999999999999999999999999x"),
        Err(ParseIntFailure::PosOverflow)
    );
    // The letter is reached while the digits still fit.
    assert_eq!(parse_number("9x99999999999999999999999999"), Err(ParseIntFailure::InvalidDigit));
}

#[test]
fn parse_number_agrees_with_the_standard_library() {
    let max = usize::MAX.to_string();
    let over = format!("{}x", max);
    let nines = "9".repeat(max.len());
    let nines_then_letter = format!("{}x", "9".repeat(max.len() - 1));
    let many_zeros = format!("{}1", "0".repeat(100));
    let cases: Vec<&str> = vec![
        "", "0", "1", "9", "10", "+1", "+", "-", "-0", "-1", "+-1", "++1", "1+", "a", "1a", "a1",
        " ", " 1", "1 ", "0x10", "1e3", "1.0", "\u{661}\u{662}\u{663}", "12\u{e9}", "007", "+007", &max, &over, &nines,
        &nines_then_letter, &many_zeros, "18446744073709551616", "4294967296", "4294967295",
        "99999999999999999999999999999999999999",
    ];
    for text in cases {
        assert_eq!(parse_number(text), std_outcome(text), "on {:?}", text);
    }
}

#[test]
fn write_number_writes_shortest_decimal() {
    assert_eq!(write_number(0), "0");
    assert_eq!(write_number(7), "7");
    assert_eq!(write_number(10), "10");
    assert_eq!(write_number(1905), "1905");
    assert_eq!(write_number(usize::MAX), usize::MAX.to_string());
}

#[test]
fn write_number_agrees_with_the_standard_library() {
    let mut n: usize = 0;
    while n < 2000 {
        assert_eq!(write_number(n), n.to_string());
        n += 1;
    }
    let mut p: usize = 1;
    while p < usize::MAX / 10 {
        assert_eq!(write_number(p), p.to_string());
        assert_eq!(write_number(p - 1), (p - 1).to_string());
        assert_eq!(write_number(p + 1), (p + 1).to_string());
        p *= 10;
    }
}

#[test]
fn reading_what_was_written_gives_the_number_back() {
    for n in [0usize, 1, 9, 10, 99, 100, 12345, usize::MAX - 1, usize::MAX] {
        assert_eq!(parse_number(&write_number(n)), Ok(n));
    }
}

#[test]
fn describe_gives_the_words_of_each_failure() {
    assert_eq!(ParseIntFailure::Empty.describe(), "cannot parse integer from empty string");
    assert_eq!(ParseIntFailure::InvalidDigit.describe(), "invalid digit found in string");
    assert_eq!(
        ParseIntFailure::PosOverflow.describe(),
        "number too large to fit in target type"
    );
}

#[test]
fn describe_agrees_with_the_standard_library() {
    assert_eq!(
        ParseIntFailure::Empty.describe(),
        "".parse::<usize>().unwrap_err().to_string()
    );
    assert_eq!(
        ParseIntFailure::InvalidDigit.describe(),
        "x".parse::<usize>().unwrap_err().to_string()
    );
    assert_eq!(
        ParseIntFailure::PosOverflow.describe(),
        "99999999999999999999999999".parse::<usize>().unwrap_err().to_string()
    );
}
