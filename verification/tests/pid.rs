use singleton_guard::error::GuardError;
use singleton_guard::pid::{parse_pid, render_pid};

#[test]
fn empty_contents_name_nobody() {
    assert_eq!(parse_pid(b""), Ok(None));
}

#[test]
fn digits_name_a_process() {
    assert_eq!(parse_pid(b"4821"), Ok(Some(4821)));
    assert_eq!(parse_pid(b"5102"), Ok(Some(5102)));
    assert_eq!(parse_pid(b"0"), Ok(Some(0)));
    assert_eq!(parse_pid(b"7"), Ok(Some(7)));
}

#[test]
fn leading_zeros_are_digits() {
    assert_eq!(parse_pid(b"0004821"), Ok(Some(4821)));
    assert_eq!(parse_pid(b"00000000000000000001"), Ok(Some(1)));
}

#[test]
fn largest_identifier_is_read() {
    assert_eq!(parse_pid(b"4294967295"), Ok(Some(u32::MAX)));
    assert_eq!(parse_pid(b"4294967290"), Ok(Some(4294967290)));
}

#[test]
fn too_large_a_number_is_corrupt() {
    assert_eq!(parse_pid(b"4294967296"), Err(GuardError::CorruptLockContents));
    assert_eq!(parse_pid(b"42949672950"), Err(GuardError::CorruptLockContents));
    assert_eq!(parse_pid(b"99999999999999999999999"), Err(GuardError::CorruptLockContents));
}

#[test]
fn text_is_corrupt() {
    assert_eq!(parse_pid(b"notanumber"), Err(GuardError::CorruptLockContents));
    assert_eq!(parse_pid(b"48x1"), Err(GuardError::CorruptLockContents));
    assert_eq!(parse_pid(b"4821x"), Err(GuardError::CorruptLockContents));
}

#[test]
fn signs_and_blanks_are_corrupt() {
    assert_eq!(parse_pid(b"+4821"), Err(GuardError::CorruptLockContents));
    assert_eq!(parse_pid(b"-1"), Err(GuardError::CorruptLockContents));
    assert_eq!(parse_pid(b" 4821"), Err(GuardError::CorruptLockContents));
    assert_eq!(parse_pid(b"4821\n"), Err(GuardError::CorruptLockContents));
    assert_eq!(parse_pid(b"\n"), Err(GuardError::CorruptLockContents));
}

#[test]
fn bytes_that_are_no_text_are_corrupt() {
    assert_eq!(parse_pid(&[0xff, 0xfe]), Err(GuardError::CorruptLockContents));
    assert_eq!(parse_pid(&[0x34, 0x80]), Err(GuardError::CorruptLockContents));
    assert_eq!(parse_pid(&[b'/']), Err(GuardError::CorruptLockContents));
    assert_eq!(parse_pid(&[b':']), Err(GuardError::CorruptLockContents));
}

#[test]
fn identifiers_are_rendered_in_decimal() {
    assert_eq!(render_pid(4821), b"4821".to_vec());
    assert_eq!(render_pid(5102), b"5102".to_vec());
    assert_eq!(render_pid(0), b"0".to_vec());
    assert_eq!(render_pid(9), b"9".to_vec());
    assert_eq!(render_pid(10), b"10".to_vec());
    assert_eq!(render_pid(1000), b"1000".to_vec());
    assert_eq!(render_pid(u32::MAX), b"4294967295".to_vec());
}

#[test]
fn rendering_agrees_with_std() {
    for pid in [0u32, 1, 9, 10, 99, 100, 4821, 65535, 65536, 1 << 22, u32::MAX - 1, u32::MAX] {
        assert_eq!(render_pid(pid), pid.to_string().into_bytes());
    }
}

#[test]
fn what_is_rendered_is_read_back() {
    for pid in [0u32, 1, 9, 10, 4821, 5102, 123456789, u32::MAX] {
        assert_eq!(parse_pid(&render_pid(pid)), Ok(Some(pid)));
    }
}
