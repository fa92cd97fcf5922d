use dog_teleop::log_buffer::{
    chrono_now, drain_logs, format_clock, push_log, push_log_at, LogBuffer, MAX_LOG_LINES,
};

fn is_clock_text(t: &str) -> bool {
    let b = t.as_bytes();
    b.len() == 12
        && b[2] == b':'
        && b[5] == b':'
        && b[8] == b'.'
        && [0usize, 1, 3, 4, 6, 7, 9, 10, 11].iter().all(|&i| b[i].is_ascii_digit())
}

#[test]
fn format_clock_pads_each_field() {
    assert_eq!(format_clock(0, 0), "00:00:00.000");
    assert_eq!(format_clock(3661, 5), "01:01:01.005");
    assert_eq!(format_clock(86399, 999), "23:59:59.999");
    assert_eq!(format_clock(45296, 78), "12:34:56.078");
}

#[test]
fn format_clock_wraps_at_midnight() {
    assert_eq!(format_clock(86400, 0), "00:00:00.000");
    assert_eq!(format_clock(90000, 120), "01:00:00.120");
    assert_eq!(format_clock(1_700_000_000, 42), "22:13:20.042");
}

#[test]
fn chrono_now_has_clock_shape() {
    let t = chrono_now();
    assert!(is_clock_text(&t), "{}", t);
}

#[test]
fn push_log_at_stamps_line() {
    let mut buf = LogBuffer::new();
    push_log_at(&mut buf, 3661, 5, "hello".to_string());
    push_log_at(&mut buf, 3662, 10, "world".to_string());
    assert_eq!(buf.len(), 2);
    let lines = drain_logs(&mut buf);
    assert_eq!(lines, vec!["[01:01:01.005] hello".to_string(), "[01:01:02.010] world".to_string()]);
}

#[test]
fn push_log_stamps_with_current_time() {
    let mut buf = LogBuffer::new();
    push_log(&mut buf, "[Gamepad] started".to_string());
    let lines = drain_logs(&mut buf);
    assert_eq!(lines.len(), 1);
    let line = &lines[0];
    assert!(line.starts_with('['));
    assert_eq!(&line[13..15], "] ");
    assert!(is_clock_text(&line[1..13]));
    assert_eq!(&line[15..], "[Gamepad] started");
}

#[test]
fn buffer_keeps_newest_lines() {
    let mut buf = LogBuffer::new();
    for i in 0..(MAX_LOG_LINES + 5) {
        push_log_at(&mut buf, 0, 0, format!("line {}", i));
        assert!(buf.len() <= MAX_LOG_LINES);
    }
    assert_eq!(buf.len(), MAX_LOG_LINES);
    let lines = drain_logs(&mut buf);
    assert_eq!(lines.len(), MAX_LOG_LINES);
    assert_eq!(lines[0], "[00:00:00.000] line 5");
    assert_eq!(lines[MAX_LOG_LINES - 1], format!("[00:00:00.000] line {}", MAX_LOG_LINES + 4));
}

#[test]
fn buffer_at_exact_bound_drops_nothing() {
    let mut buf = LogBuffer::new();
    for i in 0..MAX_LOG_LINES {
        push_log_at(&mut buf, 0, 0, format!("{}", i));
    }
    let lines = drain_logs(&mut buf);
    assert_eq!(lines.len(), 1024);
    assert_eq!(lines[0], "[00:00:00.000] 0");
}

#[test]
fn drain_empties_buffer() {
    let mut buf = LogBuffer::new();
    assert!(drain_logs(&mut buf).is_empty());
    push_log_at(&mut buf, 1, 2, "a".to_string());
    assert_eq!(drain_logs(&mut buf), vec!["[00:00:01.002] a".to_string()]);
    assert_eq!(buf.len(), 0);
    assert!(drain_logs(&mut buf).is_empty());
}
