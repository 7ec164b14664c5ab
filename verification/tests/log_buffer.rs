use procband::event::StreamKind;
use procband::log_buffer::{LogBuffer, LogLine};

fn line(text: &str) -> LogLine {
    LogLine {
        stream: StreamKind::Stdout,
        text: text.into(),
    }
}

#[test]
fn capacity_one_keeps_only_latest_line() {
    let mut buf = LogBuffer::new(1);

    buf.push(LogLine {
        stream: StreamKind::Stdout,
        text: "first".into(),
    });

    buf.push(LogLine {
        stream: StreamKind::Stdout,
        text: "second".into(),
    });

    let texts: Vec<_> = buf.iter().map(|l| l.text.as_str()).collect();

    assert_eq!(texts, vec!["second"]);
}

#[test]
fn preserves_stdout_and_stderr() {
    let mut buf = LogBuffer::new(3);

    buf.push(LogLine {
        stream: StreamKind::Stdout,
        text: "normal output".into(),
    });

    buf.push(LogLine {
        stream: StreamKind::Stderr,
        text: "error output".into(),
    });

    assert!(matches!(
        buf.iter().nth(0).unwrap().stream,
        StreamKind::Stdout
    ));

    assert!(matches!(
        buf.iter().nth(1).unwrap().stream,
        StreamKind::Stderr
    ));
}

#[test]
fn keeps_the_latest_lines_in_order() {
    let mut buf = LogBuffer::new(3);
    for i in 0..7 {
        buf.push(line(&format!("line {i}")));
    }

    let texts: Vec<_> = buf.iter().map(|l| l.text.clone()).collect();
    assert_eq!(texts, vec!["line 4", "line 5", "line 6"]);
    assert_eq!(buf.len(), 3);

    let newest_first: Vec<_> = buf.iter().rev().map(|l| l.text.clone()).collect();
    assert_eq!(newest_first, vec!["line 6", "line 5", "line 4"]);
}

#[test]
fn below_capacity_keeps_everything() {
    let mut buf = LogBuffer::new(1000);
    buf.push(line("a"));
    buf.push(line("b"));

    assert_eq!(buf.len(), 2);
}

#[test]
fn zero_capacity_keeps_no_line() {
    let mut buf = LogBuffer::new(0);
    buf.push(line("a"));
    buf.push(line("b"));

    assert_eq!(buf.len(), 0);
    assert!(buf.iter().next().is_none());
}
