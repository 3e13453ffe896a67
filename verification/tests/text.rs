use gitlab_rescue::text::{parse_usize, usize_to_string};

#[test]
fn decimal_notation_of_small_numbers() {
    assert_eq!(usize_to_string(0), "0");
    assert_eq!(usize_to_string(7), "7");
    assert_eq!(usize_to_string(10), "10");
    assert_eq!(usize_to_string(25), "25");
    assert_eq!(usize_to_string(100), "100");
    assert_eq!(usize_to_string(1234567890), "1234567890");
}

#[test]
fn decimal_notation_agrees_with_std() {
    let numbers: [usize; 9] = [0, 1, 9, 10, 11, 99, 101, 65536, usize::MAX];
    for n in numbers {
        assert_eq!(usize_to_string(n), n.to_string());
    }
}

#[test]
fn parse_reads_digits_with_an_optional_plus() {
    assert_eq!(parse_usize("0"), Some(0));
    assert_eq!(parse_usize("8"), Some(8));
    assert_eq!(parse_usize("25"), Some(25));
    assert_eq!(parse_usize("+25"), Some(25));
    assert_eq!(parse_usize("007"), Some(7));
}

#[test]
fn parse_refuses_everything_else() {
    assert_eq!(parse_usize(""), None);
    assert_eq!(parse_usize("+"), None);
    assert_eq!(parse_usize("-1"), None);
    assert_eq!(parse_usize("++1"), None);
    assert_eq!(parse_usize("1+"), None);
    assert_eq!(parse_usize(" 1"), None);
    assert_eq!(parse_usize("1 "), None);
    assert_eq!(parse_usize("1a"), None);
    assert_eq!(parse_usize("ten"), None);
    assert_eq!(parse_usize("\u{663}"), None);
}

#[test]
fn parse_refuses_numbers_that_do_not_fit() {
    let most = usize::MAX.to_string();
    assert_eq!(parse_usize(&most), Some(usize::MAX));
    assert_eq!(parse_usize("340282366920938463463374607431768211456"), None);
    assert_eq!(parse_usize(&format!("{}0", most)), None);
    assert_eq!(parse_usize(&format!("{}x", most)), None);
}

#[test]
fn parse_agrees_with_std() {
    let texts = [
        "0", "1", "42", "+42", "-42", "", "+", "-", "4 2", "0x10", "1e3", "00", "+0", "١٢", "65536",
        "18446744073709551615", "18446744073709551616", "4294967295", "4294967296",
    ];
    for text in texts {
        assert_eq!(parse_usize(text), text.parse::<usize>().ok(), "for {:?}", text);
    }
}

#[test]
fn parse_reads_back_what_was_written() {
    let numbers: [usize; 6] = [0, 5, 10, 99, 100, usize::MAX];
    for n in numbers {
        assert_eq!(parse_usize(&usize_to_string(n)), Some(n));
    }
}
