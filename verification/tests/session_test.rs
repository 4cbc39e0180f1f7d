use mconv::logger::{clock_text, log_file_name, log_line, timestamp_text};
use mconv::pipeline::Outcome;
use mconv::progress::ConversionStats;
use mconv::ui::flow::{folder_choice_ends, folder_pick, FolderPick};
use mconv::ui::flow::{
    cli_mode, disk_space_is_tight, log_tail_start, recommended_workers, target_hint,
    unlisted_matches, workers_for_choice, CliMode,
};
use mconv::ui::prompt::{
    browse_action, menu_response, menu_start, resolve_input, yes_no_default, BrowseAction, MenuKey,
    MenuResponse,
};
use mconv::formats::MediaCategory;

#[test]
fn stats_count_each_outcome() {
    let mut s = ConversionStats::new();
    assert_eq!(s.summary(), (0, 0, 0));
    s.inc_ok();
    s.inc_ok();
    s.inc_skip();
    s.inc_fail();
    s.record(Outcome::Converted);
    s.record(Outcome::Failed);
    assert_eq!(s.summary(), (3, 1, 2));
}

#[test]
fn log_lines() {
    assert_eq!(log_line("09:05:01", "OK", "a -> b"), "09:05:01 [OK  ] a -> b\n");
    assert_eq!(log_line("09:05:01", "SKIP", "x"), "09:05:01 [SKIP] x\n");
    assert_eq!(log_line("09:05:01", "DEL", "x"), "09:05:01 [DEL ] x\n");
    assert_eq!(log_line("t", "LONGER", "m"), "t [LONGER] m\n");
    for level in ["OK", "SKIP", "FAIL", "DEL"] {
        assert_eq!(log_line("t", level, "m"), format!("{} [{:<4}] {}\n", "t", level, "m"));
    }
}

#[test]
fn clock_and_session_stamps() {
    assert_eq!(clock_text(9, 5, 1), "09:05:01");
    assert_eq!(clock_text(23, 59, 60), "23:59:60");
    assert_eq!(timestamp_text(124, 0, 7, 8, 9, 10), "20240107_080910");
    for (y, mo, d, h, mi, s) in [(124, 11, 31, 0, 0, 0), (-1901, -1, -5, 123, -7, 5)] {
        assert_eq!(
            timestamp_text(y, mo, d, h, mi, s),
            format!("{:04}{:02}{:02}_{:02}{:02}{:02}", y + 1900, mo + 1, d, h, mi, s)
        );
        assert_eq!(clock_text(h, mi, s), format!("{:02}:{:02}:{:02}", h, mi, s));
    }
    assert_eq!(log_file_name("20240107_080910", 4242), "mconv_20240107_080910_4242.log");
}

#[test]
fn menu_navigation_wraps() {
    assert_eq!(menu_start(0, 4), 0);
    assert_eq!(menu_start(9, 4), 3);
    assert_eq!(menu_response(0, 4, MenuKey::Up, false), MenuResponse::Move(3));
    assert_eq!(menu_response(3, 4, MenuKey::Down, false), MenuResponse::Move(0));
    assert_eq!(menu_response(1, 4, MenuKey::Char('j'), false), MenuResponse::Move(2));
    assert_eq!(menu_response(1, 4, MenuKey::Char('k'), false), MenuResponse::Move(0));
    assert_eq!(menu_response(2, 4, MenuKey::Enter, false), MenuResponse::Choose(2));
    assert_eq!(menu_response(2, 4, MenuKey::Escape, false), MenuResponse::Cancel);
    assert_eq!(menu_response(2, 4, MenuKey::Char('q'), false), MenuResponse::Cancel);
    assert_eq!(menu_response(2, 4, MenuKey::Char('c'), true), MenuResponse::Abort);
    assert_eq!(menu_response(2, 4, MenuKey::Char('c'), false), MenuResponse::Ignore);
    assert_eq!(menu_response(2, 4, MenuKey::Other, false), MenuResponse::Ignore);
    assert_eq!(yes_no_default(true), 1);
    assert_eq!(yes_no_default(false), 0);
}

#[test]
fn typed_answers() {
    assert_eq!(resolve_input("  /tmp/x \n", Some("/home")), Some("/tmp/x".to_string()));
    assert_eq!(resolve_input("   \n", Some("/home")), Some("/home".to_string()));
    assert_eq!(resolve_input("\n", None), None);
    assert_eq!(resolve_input("\u{3000}a b\u{2003}", None), Some("a b".to_string()));
}

#[test]
fn browser_choices() {
    assert_eq!(browse_action(0, 3), BrowseAction::SelectCurrent);
    assert_eq!(browse_action(1, 3), BrowseAction::GoToParent);
    assert_eq!(browse_action(2, 3), BrowseAction::Enter(0));
    assert_eq!(browse_action(4, 3), BrowseAction::Enter(2));
    assert_eq!(browse_action(5, 3), BrowseAction::Stay);
}

#[test]
fn command_line_modes() {
    let a = |v: &[&str]| v.iter().map(|s| s.to_string()).collect::<Vec<String>>();
    assert_eq!(cli_mode(&a(&["mconv"])), CliMode::Interactive);
    assert_eq!(cli_mode(&a(&["mconv", "-h"])), CliMode::Help);
    assert_eq!(cli_mode(&a(&["mconv", "--help"])), CliMode::Help);
    assert_eq!(cli_mode(&a(&["mconv", "-v"])), CliMode::Version);
    assert_eq!(cli_mode(&a(&["mconv", "--version", "-h"])), CliMode::Version);
    assert_eq!(cli_mode(&a(&["mconv", "x", "-h"])), CliMode::Interactive);
}

#[test]
fn worker_counts() {
    assert_eq!(recommended_workers(MediaCategory::Video, 1), 2);
    assert_eq!(recommended_workers(MediaCategory::Video, 3), 3);
    assert_eq!(recommended_workers(MediaCategory::Video, 16), 3);
    assert_eq!(recommended_workers(MediaCategory::Audio, 4), 4);
    assert_eq!(recommended_workers(MediaCategory::Image, 16), 6);
    assert_eq!(workers_for_choice(MediaCategory::Video, 0, 16), 3);
    assert_eq!(workers_for_choice(MediaCategory::Video, 1, 16), 2);
    assert_eq!(workers_for_choice(MediaCategory::Video, 2, 16), 1);
    assert_eq!(workers_for_choice(MediaCategory::Video, 3, 16), 4);
    assert_eq!(workers_for_choice(MediaCategory::Video, 4, 16), 16);
    assert_eq!(workers_for_choice(MediaCategory::Audio, 0, 16), 6);
    assert_eq!(workers_for_choice(MediaCategory::Audio, 1, 16), 2);
    assert_eq!(workers_for_choice(MediaCategory::Audio, 2, 16), 4);
    assert_eq!(workers_for_choice(MediaCategory::Audio, 3, 16), 1);
    assert_eq!(workers_for_choice(MediaCategory::Audio, 7, 3), 3);
}

#[test]
fn target_descriptions() {
    assert_eq!(target_hint("mp4"), Some("Universal H.264 + AAC, high compatibility"));
    assert_eq!(target_hint("m4a"), Some("Advanced Audio Coding (192kbps)"));
    assert_eq!(target_hint("jpg"), Some("High quality JPEG image"));
    assert_eq!(target_hint("tiff"), None);
}

#[test]
fn log_view_shows_the_last_lines() {
    assert_eq!(log_tail_start(0), 0);
    assert_eq!(log_tail_start(25), 0);
    assert_eq!(log_tail_start(26), 1);
    assert_eq!(log_tail_start(100), 75);
}

#[test]
fn find_lists_at_most_thirty() {
    assert_eq!(unlisted_matches(0), 0);
    assert_eq!(unlisted_matches(30), 0);
    assert_eq!(unlisted_matches(31), 1);
    assert_eq!(unlisted_matches(45), 15);
}

#[test]
fn tight_disk_space() {
    assert!(disk_space_is_tight(10, 11));
    assert!(!disk_space_is_tight(11, 11));
    assert!(!disk_space_is_tight(12, 11));
}

#[test]
fn folder_menu_picks_and_retries() {
    assert_eq!(folder_pick(Some(0)), FolderPick::NativeDialog);
    assert_eq!(folder_pick(Some(1)), FolderPick::CurrentDir);
    assert_eq!(folder_pick(Some(2)), FolderPick::TypedPath);
    assert_eq!(folder_pick(Some(3)), FolderPick::BrowseTree);
    assert_eq!(folder_pick(Some(4)), FolderPick::Cancel);
    assert_eq!(folder_pick(None), FolderPick::Cancel);
    assert!(folder_choice_ends(FolderPick::Cancel, false));
    assert!(folder_choice_ends(FolderPick::CurrentDir, true));
    assert!(!folder_choice_ends(FolderPick::NativeDialog, false));
    assert!(!folder_choice_ends(FolderPick::TypedPath, false));
    assert!(!folder_choice_ends(FolderPick::BrowseTree, false));
    assert!(folder_choice_ends(FolderPick::BrowseTree, true));
}

#[test]
fn run_of_skipped_files_counts_only_skips() {
    let mut s = ConversionStats::new();
    for _ in 0..2 {
        s.record(Outcome::Skipped);
    }
    assert_eq!(s.summary(), (0, 2, 0));
}
