use std::io::BufRead;
use sloppy::agent_log::{last_log_entry, log_record, read_log_piece};

#[test]
fn last_entry_is_the_last_line() {
    assert_eq!(last_log_entry(b"100\n200\n").as_deref(), Some("200"));
    assert_eq!(last_log_entry(b"100\n200").as_deref(), Some("200"));
    assert_eq!(last_log_entry(b"a\r\nb\r\n").as_deref(), Some("b"));
    assert_eq!(last_log_entry(b"a\nb\r").as_deref(), Some("b\r"));
    assert_eq!(last_log_entry(b"a\n\n").as_deref(), Some(""));
    assert_eq!(last_log_entry(b"\n").as_deref(), Some(""));
}

#[test]
fn empty_log_has_no_entry() {
    assert_eq!(last_log_entry(b""), None);
}

#[test]
fn unreadable_lines_are_skipped() {
    assert_eq!(last_log_entry(b"12\n\xff\xfe\n").as_deref(), Some("12"));
    assert_eq!(last_log_entry(b"12\n\xff").as_deref(), Some("12"));
    assert_eq!(last_log_entry(b"\xff\n"), None);
    assert_eq!(last_log_entry("héllo\n".as_bytes()).as_deref(), Some("héllo"));
}

#[test]
fn matches_bufread_lines() {
    let samples: [&[u8]; 7] = [b"1\n2\n", b"1\r\n", b"x", b"", b"a\n\xc3\n", b"\r\n\r\n", b"\xe2\x82\xac\n5"];
    for content in samples {
        let expected = std::io::BufReader::new(content).lines().filter_map(Result::ok).last();
        assert_eq!(last_log_entry(content), expected, "content {:?}", content);
    }
}

#[test]
fn piece_reading() {
    assert_eq!(read_log_piece(b"abc\r\n").as_deref(), Some("abc"));
    assert_eq!(read_log_piece(b"abc\r").as_deref(), Some("abc\r"));
    assert_eq!(read_log_piece(b"\xff\n"), None);
}

#[test]
fn record_is_the_item_and_a_line_feed() {
    assert_eq!(log_record("2500"), b"2500\n".to_vec());
    assert_eq!(log_record(""), b"\n".to_vec());
    assert_eq!(log_record("€"), vec![0xe2, 0x82, 0xac, b'\n']);
}

#[test]
fn appended_record_reads_back() {
    let mut log = b"Agent created at yesterday\n17\n".to_vec();
    log.extend(log_record("4242"));
    assert_eq!(last_log_entry(&log).as_deref(), Some("4242"));
}
