use plattera_supervisor::pid_record::{decimal_text, parse_pid, pid_file_path};

#[test]
fn parses_plain_pid() {
    assert_eq!(parse_pid("1234"), Some(1234));
}

#[test]
fn trims_surrounding_whitespace() {
    assert_eq!(parse_pid("  42\n"), Some(42));
    assert_eq!(parse_pid("\t7\r\n"), Some(7));
    assert_eq!(parse_pid("\u{a0}99\u{3000}"), Some(99));
}

#[test]
fn accepts_leading_plus() {
    assert_eq!(parse_pid("+15"), Some(15));
}

#[test]
fn corrupt_text_is_no_record() {
    assert_eq!(parse_pid(""), None);
    assert_eq!(parse_pid("   "), None);
    assert_eq!(parse_pid("+"), None);
    assert_eq!(parse_pid("-3"), None);
    assert_eq!(parse_pid("12a"), None);
    assert_eq!(parse_pid("1 2"), None);
    assert_eq!(parse_pid("abc"), None);
}

#[test]
fn largest_pid_and_overflow() {
    assert_eq!(parse_pid("4294967295"), Some(u32::MAX));
    assert_eq!(parse_pid("4294967296"), None);
    assert_eq!(parse_pid("99999999999999999999"), None);
}

#[test]
fn decimal_text_values() {
    assert_eq!(decimal_text(0), "0");
    assert_eq!(decimal_text(7), "7");
    assert_eq!(decimal_text(1234), "1234");
    assert_eq!(decimal_text(u32::MAX), "4294967295");
}

#[test]
fn written_pid_reads_back() {
    for pid in [0u32, 1, 9, 10, 31337, 65536, u32::MAX] {
        assert_eq!(parse_pid(&decimal_text(pid)), Some(pid));
    }
}

#[test]
fn record_location() {
    assert_eq!(pid_file_path(), "../../backend/.server.pid");
}
