use geph_tui::logbuf::{split_lines, LogWriter};

#[test]
fn lines_split_like_str_lines() {
    assert_eq!(split_lines("a\nb\r\nc"), vec!["a", "b", "c"]);
    assert_eq!(split_lines("x\n"), vec!["x"]);
    assert!(split_lines("").is_empty());
    assert_eq!(split_lines("\n\n"), vec!["", ""]);
    assert_eq!(split_lines("a\r"), vec!["a\r"]);
    for t in ["one\ntwo", "\r\n", "a\n\nb\n", "tail\r\r\n"] {
        let expected: Vec<String> = t.lines().map(|l| l.to_string()).collect();
        assert_eq!(split_lines(t), expected);
    }
}

#[test]
fn write_adds_lines_and_counts_bytes() {
    let mut w = LogWriter::new();
    assert_eq!(w.write(b"hello\nworld\n"), 12);
    assert_eq!(w.logs, vec!["hello", "world"]);
    assert_eq!(w.write(b""), 0);
    assert_eq!(w.logs.len(), 2);
    w.flush();
    assert_eq!(w.logs.len(), 2);
}

#[test]
fn write_decodes_invalid_bytes_lossily() {
    let mut w = LogWriter::new();
    w.write(&[0xff, b'o', b'k', b'\n']);
    assert_eq!(w.logs, vec!["\u{FFFD}ok"]);
}

#[test]
fn log_keeps_newest_thousand_lines() {
    let mut w = LogWriter::new();
    let mut text = String::new();
    for i in 0..1005 {
        text.push_str(&format!("line {}\n", i));
    }
    w.write(text.as_bytes());
    assert_eq!(w.logs.len(), 1000);
    assert_eq!(w.logs[0], "line 5");
    assert_eq!(w.logs[999], "line 1004");
    w.write(b"last\n");
    assert_eq!(w.logs.len(), 1000);
    assert_eq!(w.logs[0], "line 6");
    assert_eq!(w.logs[999], "last");
}

#[test]
fn push_text_adds_lines_and_caps() {
    let mut w = LogWriter::new();
    w.push_text("a\r\nb");
    assert_eq!(w.logs, vec!["a", "b"]);
    let big: String = (0..1001).map(|i| format!("{}\n", i)).collect();
    w.push_text(&big);
    assert_eq!(w.logs.len(), 1000);
    assert_eq!(w.logs[0], "1");
}
