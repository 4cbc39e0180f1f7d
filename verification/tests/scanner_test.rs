use mconv::picker::{is_listed_folder, list_subdirectories};
use mconv::scanner::{file_extension, find_matching_files, is_ignored, scan_extensions, ExtensionStats};
use std::path::Path;

fn p(parts: &[&str]) -> Vec<String> {
    parts.iter().map(|s| s.to_string()).collect()
}

#[test]
fn extensions_follow_path_rules() {
    for name in ["a.mp4", "a.b.c", "foo.", ".bashrc", "..", "noext", ".a.b", "x.TAR.GZ", "é.MKV"] {
        let expected = Path::new(name).extension().map(|e| e.to_string_lossy().to_string());
        assert_eq!(file_extension(name), expected, "{:?}", name);
    }
}

#[test]
fn hidden_and_own_entries_are_ignored() {
    assert!(is_ignored("/home/u/.mconv/logs/a.log", Some("a.log")));
    assert!(is_ignored("/m/.mconv_tmp_clip.mp4", Some(".mconv_tmp_clip.mp4")));
    assert!(is_ignored("/m/.hidden.mp4", Some(".hidden.mp4")));
    assert!(!is_ignored("/m/clip.mp4", Some("clip.mp4")));
    assert!(!is_ignored("/m/.", Some(".")));
    assert!(!is_ignored("/m/..", Some("..")));
    assert!(!is_ignored("/m/x", None));
}

fn stats(v: &[ExtensionStats]) -> Vec<(String, usize)> {
    v.iter().map(|s| (s.ext.clone(), s.count)).collect()
}

#[test]
fn directory_scan_counts() {
    let files = vec![
        p(&["audio1.wav"]),
        p(&["audio2.WAV"]),
        p(&["video1.mp4"]),
        p(&["img1.png"]),
        p(&["sub", "x.mp4"]),
        p(&["sub", "y.mp4"]),
        p(&["noext"]),
        p(&["trailing."]),
    ];
    let s = scan_extensions(&files);
    assert_eq!(
        stats(&s),
        vec![
            ("mp4".to_string(), 3),
            ("wav".to_string(), 2),
            ("png".to_string(), 1),
        ]
    );
    assert!(scan_extensions(&Vec::new()).is_empty());
}

#[test]
fn equal_counts_are_listed_alphabetically() {
    let files = vec![p(&["b.ogg"]), p(&["a.mkv"]), p(&["c.avi"]), p(&["d.avi"])];
    assert_eq!(
        stats(&scan_extensions(&files)),
        vec![("avi".to_string(), 2), ("mkv".to_string(), 1), ("ogg".to_string(), 1)]
    );
}

#[test]
fn matching_files_in_path_order() {
    let files = vec![
        p(&["z.MP4"]),
        p(&["a.mp4"]),
        p(&["a", "b.mp4"]),
        p(&["b.wav"]),
        p(&["A.mp4"]),
    ];
    let found = find_matching_files(&files, "mp4");
    assert_eq!(found, vec![p(&["A.mp4"]), p(&["a", "b.mp4"]), p(&["a.mp4"]), p(&["z.MP4"])]);
    let joined: Vec<std::path::PathBuf> = files
        .iter()
        .filter(|f| f.last().unwrap().to_lowercase().ends_with(".mp4"))
        .map(|f| f.iter().collect())
        .collect();
    let mut sorted = joined.clone();
    sorted.sort();
    let ours: Vec<std::path::PathBuf> = found.iter().map(|f| f.iter().collect()).collect();
    assert_eq!(ours, sorted);
    assert_eq!(find_matching_files(&files, "WAV"), vec![p(&["b.wav"])]);
    assert!(find_matching_files(&files, "flac").is_empty());
}

#[test]
fn subfolders_offered_sorted() {
    let names = p(&["zeta", ".git", "alpha", ".mconv", "Beta", ".mconv_tmp", "mid"]);
    assert_eq!(list_subdirectories(&names), p(&["Beta", "alpha", "mid", "zeta"]));
    assert!(is_listed_folder("music"));
    assert!(!is_listed_folder(".cache"));
}

#[test]
fn matching_files_agree_with_counts() {
    let files = vec![
        p(&["d", "a.MP4"]),
        p(&["d", "b.mp4"]),
        p(&["d", "c.wav"]),
        p(&["d", "sub", "e.Mp4"]),
        p(&["d", "noext"]),
    ];
    let counts = stats(&scan_extensions(&files));
    for ext in ["mp4", "MP4", "wav", "flac"] {
        let found = find_matching_files(&files, ext).len();
        let listed = counts
            .iter()
            .find(|(e, _)| *e == ext.to_lowercase())
            .map_or(0, |(_, c)| *c);
        assert_eq!(found, listed);
    }
    assert_eq!(find_matching_files(&files, "mp4").len(), 3);
}
