//! Decisions of the program's flows: command line, worker counts and the
//! descriptions of target formats.

use vstd::prelude::*;

use crate::formats::MediaCategory;
use crate::text::{same_text, string_views};

verus! {

/// What the program is asked to do on the command line.
#[derive(Debug, Clone, Copy, PartialEq, Eq, Structural)]
pub enum CliMode {
    Help,
    Version,
    Interactive,
}

/// The first argument after the program name decides: `-h`/`--help` asks for
/// help, `-v`/`--version` for the version; anything else starts the menus.
pub open spec fn cli_mode_of(args: Seq<Seq<char>>) -> CliMode {
    if args.len() > 1 && (args[1] == "-h"@ || args[1] == "--help"@) {
        CliMode::Help
    } else if args.len() > 1 && (args[1] == "-v"@ || args[1] == "--version"@) {
        CliMode::Version
    } else {
        CliMode::Interactive
    }
}

/// The mode the command line `args` (program name first) asks for.
pub fn cli_mode(args: &Vec<String>) -> (r: CliMode)
    ensures
        r == cli_mode_of(string_views(args@)),
{
    if args.len() > 1 {
        let a = args[1].as_str();
        if same_text(a, "-h") || same_text(a, "--help") {
            return CliMode::Help;
        }
        if same_text(a, "-v") || same_text(a, "--version") {
            return CliMode::Version;
        }
    }
    CliMode::Interactive
}

/// The recommended number of parallel workers: for video the processor count
/// clamped to 2..=3, otherwise at most 6.
pub open spec fn recommended_workers_of(category: MediaCategory, cpus: nat) -> nat {
    if category == MediaCategory::Video {
        if cpus < 2 {
            2
        } else if cpus > 3 {
            3
        } else {
            cpus
        }
    } else if cpus < 6 {
        cpus
    } else {
        6
    }
}

/// The recommended number of parallel workers on `cpus` processors.
pub fn recommended_workers(category: MediaCategory, cpus: usize) -> (r: usize)
    ensures
        r == recommended_workers_of(category, cpus as nat),
{
    if category == MediaCategory::Video {
        if cpus < 2 {
            2
        } else if cpus > 3 {
            3
        } else {
            cpus
        }
    } else if cpus < 6 {
        cpus
    } else {
        6
    }
}

/// The workers an option of the concurrency menu stands for. Video offers
/// automatic, conservative (2), sequential (1), aggressive (4) and all
/// processors; other media offer automatic, 2, 4 and 1.
pub open spec fn workers_for_choice_of(category: MediaCategory, choice: nat, cpus: nat) -> nat {
    let rec = recommended_workers_of(category, cpus);
    if category == MediaCategory::Video {
        if choice == 1 {
            2
        } else if choice == 2 {
            1
        } else if choice == 3 {
            4
        } else if choice == 4 {
            cpus
        } else {
            rec
        }
    } else {
        if choice == 1 {
            2
        } else if choice == 2 {
            4
        } else if choice == 3 {
            1
        } else {
            rec
        }
    }
}

/// The number of workers for option `choice` of the concurrency menu.
pub fn workers_for_choice(category: MediaCategory, choice: usize, cpus: usize) -> (r: usize)
    ensures
        r == workers_for_choice_of(category, choice as nat, cpus as nat),
{
    let rec = recommended_workers(category, cpus);
    if category == MediaCategory::Video {
        match choice {
            1 => 2,
            2 => 1,
            3 => 4,
            4 => cpus,
            _ => rec,
        }
    } else {
        match choice {
            1 => 2,
            2 => 4,
            3 => 1,
            _ => rec,
        }
    }
}

/// The automatic video setting uses two or three workers; other media use at
/// most six, and never more than the processors.
pub proof fn law_recommended_workers(category: MediaCategory, cpus: nat)
    ensures
        category == MediaCategory::Video ==> 2 <= recommended_workers_of(category, cpus) <= 3,
        category != MediaCategory::Video ==> recommended_workers_of(category, cpus) <= 6
            && recommended_workers_of(category, cpus) <= cpus,
{
}

/// The worker presets: the first option is always the recommendation; for
/// video the others are conservative (2), sequential (1), aggressive (4) and
/// every processor; for other media 2, 4 and a single worker. A choice is
/// never zero workers unless there are no processors to recommend.
pub proof fn law_worker_presets(category: MediaCategory, choice: nat, cpus: nat)
    ensures
        workers_for_choice_of(category, 0, cpus) == recommended_workers_of(category, cpus),
        category == MediaCategory::Video ==> workers_for_choice_of(category, 1, cpus) == 2
            && workers_for_choice_of(category, 2, cpus) == 1 && workers_for_choice_of(category, 3, cpus)
            == 4 && workers_for_choice_of(category, 4, cpus) == cpus,
        category != MediaCategory::Video ==> workers_for_choice_of(category, 1, cpus) == 2
            && workers_for_choice_of(category, 2, cpus) == 4 && workers_for_choice_of(category, 3, cpus)
            == 1,
        cpus > 0 ==> workers_for_choice_of(category, choice, cpus) > 0,
        workers_for_choice_of(category, choice, cpus) <= if cpus > 4 { cpus } else { 4 },
{
}

/// The description offered beside a target format, if it has one.
pub open spec fn target_hint_of(t: Seq<char>) -> Option<Seq<char>> {
    if t == "mp4"@ {
        Some("Universal H.264 + AAC, high compatibility"@)
    } else if t == "mkv"@ {
        Some("Matroska container with full metadata support"@)
    } else if t == "webm"@ {
        Some("VP9 + Opus for high efficiency web streaming"@)
    } else if t == "gif"@ {
        Some("High quality animated GIF with Lanczos scaling"@)
    } else if t == "mp3"@ {
        Some("Universal MP3 audio (LAME VBR Q2)"@)
    } else if t == "flac"@ {
        Some("Lossless audio compression"@)
    } else if t == "wav"@ {
        Some("Uncompressed PCM audio"@)
    } else if t == "aac"@ || t == "m4a"@ {
        Some("Advanced Audio Coding (192kbps)"@)
    } else if t == "webp"@ {
        Some("High compression web image format"@)
    } else if t == "png"@ {
        Some("Lossless image format"@)
    } else if t == "jpg"@ {
        Some("High quality JPEG image"@)
    } else {
        None
    }
}

/// The description of target format `t`.
pub fn target_hint(t: &str) -> (r: Option<&'static str>)
    ensures
        match r {
            Some(h) => target_hint_of(t@) == Some(h@),
            None => target_hint_of(t@) is None,
        },
{
    if same_text(t, "mp4") {
        Some("Universal H.264 + AAC, high compatibility")
    } else if same_text(t, "mkv") {
        Some("Matroska container with full metadata support")
    } else if same_text(t, "webm") {
        Some("VP9 + Opus for high efficiency web streaming")
    } else if same_text(t, "gif") {
        Some("High quality animated GIF with Lanczos scaling")
    } else if same_text(t, "mp3") {
        Some("Universal MP3 audio (LAME VBR Q2)")
    } else if same_text(t, "flac") {
        Some("Lossless audio compression")
    } else if same_text(t, "wav") {
        Some("Uncompressed PCM audio")
    } else if same_text(t, "aac") || same_text(t, "m4a") {
        Some("Advanced Audio Coding (192kbps)")
    } else if same_text(t, "webp") {
        Some("High compression web image format")
    } else if same_text(t, "png") {
        Some("Lossless image format")
    } else if same_text(t, "jpg") {
        Some("High quality JPEG image")
    } else {
        None
    }
}

/// How many log lines are shown: the last 25.
pub open spec fn log_tail_start_of(lines: nat) -> nat {
    if lines > 25 {
        (lines - 25) as nat
    } else {
        0
    }
}

/// The index of the first log line shown when the log has `lines` lines.
pub fn log_tail_start(lines: usize) -> (r: usize)
    ensures
        r == log_tail_start_of(lines as nat),
{
    if lines > 25 {
        lines - 25
    } else {
        0
    }
}

/// How many found files are listed by name: at most 30; the rest are counted.
pub fn unlisted_matches(found: usize) -> (r: usize)
    ensures
        r == (if found > 30 { found - 30 } else { 0 }),
{
    if found > 30 {
        found - 30
    } else {
        0
    }
}

/// The plan warns about disk space when the free space is below the total
/// size of the files to convert.
pub fn disk_space_is_tight(free: u64, total_input: u64) -> (r: bool)
    ensures
        r == (free < total_input),
{
    free < total_input
}

/// How the folder to work in is picked, by the option chosen in the folder menu.
#[derive(Debug, Clone, Copy, PartialEq, Eq, Structural)]
pub enum FolderPick {
    /// The operating system's folder dialog (first option).
    NativeDialog,
    /// The current working directory (second option).
    CurrentDir,
    /// A path typed by hand (third option).
    TypedPath,
    /// The folder tree browser (fourth option).
    BrowseTree,
    /// The menu was cancelled, or no such option exists.
    Cancel,
}

/// The way of picking a folder that a menu answer stands for.
pub open spec fn folder_pick_of(choice: Option<usize>) -> FolderPick {
    match choice {
        Some(0) => FolderPick::NativeDialog,
        Some(1) => FolderPick::CurrentDir,
        Some(2) => FolderPick::TypedPath,
        Some(3) => FolderPick::BrowseTree,
        _ => FolderPick::Cancel,
    }
}

/// The way of picking a folder chosen in the folder menu.
pub fn folder_pick(choice: Option<usize>) -> (r: FolderPick)
    ensures
        r == folder_pick_of(choice),
{
    match choice {
        Some(0) => FolderPick::NativeDialog,
        Some(1) => FolderPick::CurrentDir,
        Some(2) => FolderPick::TypedPath,
        Some(3) => FolderPick::BrowseTree,
        _ => FolderPick::Cancel,
    }
}

/// Whether the folder choice is over after `pick` was tried: on a cancelled
/// menu (with no folder) and on the current directory at once, otherwise only
/// when a folder was found; a closed dialog, a path that is no directory or a
/// left browser shows the menu again.
pub open spec fn folder_choice_over(pick: FolderPick, found: bool) -> bool {
    match pick {
        FolderPick::Cancel => true,
        FolderPick::CurrentDir => true,
        _ => found,
    }
}

/// Whether the folder menu closes after `pick` was tried, `found` telling
/// whether it gave a folder.
pub fn folder_choice_ends(pick: FolderPick, found: bool) -> (r: bool)
    ensures
        r == folder_choice_over(pick, found),
{
    match pick {
        FolderPick::Cancel => true,
        FolderPick::CurrentDir => true,
        _ => found,
    }
}

} // verus!
