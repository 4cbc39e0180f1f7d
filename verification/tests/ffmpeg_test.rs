use mconv::ffmpeg::{error_summary, parse_progress_line, parse_u64, remember_error_line, ProgressUpdate};

#[test]
fn unsigned_numbers_parse_like_std() {
    for s in ["0", "42", "+7", "007", "18446744073709551615", "18446744073709551616", "", "+", "-1",
        " 1", "1 ", "12a", "99999999999999999999999", "٣"] {
        assert_eq!(parse_u64(s), s.parse::<u64>().ok(), "{:?}", s);
    }
}

#[test]
fn progress_lines() {
    match parse_progress_line("out_time_us=1500000", "clip.mp4") {
        ProgressUpdate::Position(us) => assert_eq!(us, 1_500_000),
        _ => panic!("expected a position"),
    }
    match parse_progress_line("out_time_us= 42 ", "clip.mp4") {
        ProgressUpdate::Position(us) => assert_eq!(us, 42),
        _ => panic!("expected a position"),
    }
    assert!(matches!(parse_progress_line("out_time_us=N/A", "x"), ProgressUpdate::Nothing));
    match parse_progress_line("speed=2.5x", "clip.mp4") {
        ProgressUpdate::Message(m) => assert_eq!(m, "clip.mp4 • 2.5x"),
        _ => panic!("expected a message"),
    }
    assert!(matches!(parse_progress_line("speed=N/A", "x"), ProgressUpdate::Nothing));
    assert!(matches!(parse_progress_line("speed=   ", "x"), ProgressUpdate::Nothing));
    assert!(matches!(parse_progress_line("frame=10", "x"), ProgressUpdate::Nothing));
}

#[test]
fn only_the_last_ten_error_lines_are_kept() {
    let mut lines: Vec<String> = Vec::new();
    for i in 0..12 {
        remember_error_line(&mut lines, &format!("  line {}  ", i));
        remember_error_line(&mut lines, "   ");
    }
    assert_eq!(lines.len(), 10);
    assert_eq!(lines[0], "line 2");
    assert_eq!(lines[9], "line 11");
}

#[test]
fn error_summaries() {
    let lines = vec![
        "Input #0".to_string(),
        "Error opening output".to_string(),
        "Conversion failed!".to_string(),
        "bye".to_string(),
    ];
    assert_eq!(error_summary(false, &lines), "Conversion failed!");
    assert_eq!(error_summary(true, &lines), "");
    let plain = vec!["first".to_string(), "second".to_string()];
    assert_eq!(error_summary(false, &plain), "second");
    assert_eq!(error_summary(false, &Vec::new()), "unknown error");
    let cannot = vec!["cannot open".to_string(), "ok".to_string()];
    assert_eq!(error_summary(false, &cannot), "cannot open");
}
