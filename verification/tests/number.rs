use diary::number::{parse_signed, parse_unsigned};
use diary::walk::{page_count, skip_count};

const SAMPLES: [&str; 40] = [
    "", "0", "7", "007", "+7", "-7", "+", "-", "++1", "--1", "+-1", "1+", "1-", " 1", "1 ", "1_0",
    "12a", "a12", "4294967295", "4294967296", "+4294967295", "-0", "+0", "00000000004294967295",
    "2147483647", "2147483648", "-2147483648", "-2147483649", "+2147483647", "99999999999999999999",
    "-99999999999999999999", "１２", "1.0", "1e3", "0x10", "٣", "18446744073709551616", "\n1", "1\n",
    "-00000000002147483648",
];

#[test]
fn parse_unsigned_reads_what_std_reads() {
    for sample in SAMPLES {
        assert_eq!(parse_unsigned(sample), sample.parse::<u32>().ok(), "{:?}", sample);
    }
}

#[test]
fn parse_signed_reads_what_std_reads() {
    for sample in SAMPLES {
        assert_eq!(parse_signed(sample), sample.parse::<i32>().ok(), "{:?}", sample);
    }
}

#[test]
fn parse_exact_values() {
    assert_eq!(parse_unsigned("4294967295"), Some(4294967295));
    assert_eq!(parse_unsigned("4294967296"), None);
    assert_eq!(parse_unsigned("+12"), Some(12));
    assert_eq!(parse_unsigned("-12"), None);
    assert_eq!(parse_signed("-2147483648"), Some(-2147483648));
    assert_eq!(parse_signed("2147483648"), None);
    assert_eq!(parse_signed("-12"), Some(-12));
}

#[test]
fn page_count_falls_back_to_the_settings() {
    assert_eq!(page_count(None, 7), 7);
    assert_eq!(page_count(Some("3"), 7), 3);
    assert_eq!(page_count(Some("0"), 7), 0);
    assert_eq!(page_count(Some("three"), 7), 7);
    assert_eq!(page_count(Some("-3"), 7), 7);
    assert_eq!(page_count(Some(""), 7), 7);
}

#[test]
fn skip_count_falls_back_to_none() {
    assert_eq!(skip_count(None), 0);
    assert_eq!(skip_count(Some("2")), 2);
    assert_eq!(skip_count(Some("-2")), -2);
    assert_eq!(skip_count(Some("two")), 0);
    assert_eq!(skip_count(Some("4294967296")), 0);
}
