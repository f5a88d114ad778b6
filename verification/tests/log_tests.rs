use whisper_gui::process_log::{log_append, LOG_CAPACITY};

#[test]
fn first_entry() {
    assert_eq!(log_append("", "12:00:00.000", "start"), "[12:00:00.000] start");
}

#[test]
fn newest_first() {
    let log = log_append("[1] older", "2", "newer");
    assert_eq!(log, "[2] newer\n[1] older");
}

#[test]
fn keeps_twelve_lines() {
    let mut log = String::new();
    for i in 0..20 {
        log = log_append(&log, &i.to_string(), "entry");
    }
    let lines: Vec<&str> = log.lines().collect();
    assert_eq!(lines.len(), LOG_CAPACITY);
    assert_eq!(lines[0], "[19] entry");
    assert_eq!(lines[11], "[8] entry");
}

#[test]
fn cut_log_loses_carriage_returns() {
    let current = "a\r\nb\r\nc\nd\ne\nf\ng\nh\ni\nj\nk\nl\nm";
    let log = log_append(current, "t", "x");
    assert_eq!(log, "[t] x\na\nb\nc\nd\ne\nf\ng\nh\ni\nj\nk");
}

#[test]
fn exact_count_and_tail() {
    let old = "[3] c\n[2] b\n[1] a";
    let log = log_append(old, "4", "d");
    let lines: Vec<&str> = log.lines().collect();
    assert_eq!(lines, vec!["[4] d", "[3] c", "[2] b", "[1] a"]);
}
