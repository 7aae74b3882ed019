use pedestal_rs::decimal::decimal;
use pedestal_rs::tokio_proc::pidfile::{format_pid, parse_pid};

#[test]
fn pid_text_round_trip() {
    for pid in [0, 1, 9, 10, 4242, 2147483647, -1, -2147483648] {
        let text = format_pid(pid);
        assert_eq!(text, pid.to_string().into_bytes());
        assert_eq!(parse_pid(&text), Some(pid));
    }
}

#[test]
fn pid_text_as_the_standard_library_reads_it() {
    for text in [
        "", "+", "-", "0", "007", "+15", "-15", "12a", " 12", "12\n", "2147483647", "2147483648",
        "-2147483648", "-2147483649", "99999999999999999999", "--1", "1-", "+-1",
    ] {
        assert_eq!(parse_pid(text.as_bytes()), text.parse::<i32>().ok(), "{:?}", text);
    }
}

#[test]
fn decimal_digits() {
    assert_eq!(decimal(0), b"0".to_vec());
    assert_eq!(decimal(7), b"7".to_vec());
    assert_eq!(decimal(1230), b"1230".to_vec());
    assert_eq!(decimal(u64::MAX), b"18446744073709551615".to_vec());
}
