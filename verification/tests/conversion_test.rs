use mconv::formats::{get_category, get_encode_args, get_targets_for_category, MediaCategory};

#[test]
fn test_categories_and_targets() {
    assert_eq!(get_category("mp4"), MediaCategory::Video);
    assert_eq!(get_category("mkv"), MediaCategory::Video);
    assert_eq!(get_category("wav"), MediaCategory::Audio);
    assert_eq!(get_category("mp3"), MediaCategory::Audio);
    assert_eq!(get_category("png"), MediaCategory::Image);
    assert_eq!(get_category("srt"), MediaCategory::Subtitle);

    let targets = get_targets_for_category(MediaCategory::Video, "mp4");
    assert!(targets.contains(&"webm"));
    assert!(targets.contains(&"mkv"));
    assert!(targets.contains(&"gif"));
    assert!(!targets.contains(&"mp4"));
}

#[test]
fn categories_follow_the_format_matrix() {
    for e in ["mp4", "mkv", "avi", "mov", "wmv", "flv", "webm", "mpg", "mpeg", "m4v", "ts", "3gp"] {
        assert_eq!(get_category(e), MediaCategory::Video, "{}", e);
    }
    for e in ["mp3", "wav", "flac", "aac", "ogg", "m4a", "wma", "opus", "aiff"] {
        assert_eq!(get_category(e), MediaCategory::Audio, "{}", e);
    }
    for e in ["jpg", "jpeg", "png", "gif", "bmp", "webp", "tiff", "tif"] {
        assert_eq!(get_category(e), MediaCategory::Image, "{}", e);
    }
    for e in ["srt", "vtt", "ass", "ssa", "sub"] {
        assert_eq!(get_category(e), MediaCategory::Subtitle, "{}", e);
    }
    assert_eq!(get_category("txt"), MediaCategory::Unknown);
    assert_eq!(get_category(""), MediaCategory::Unknown);
    assert_eq!(get_category(".mp4"), MediaCategory::Unknown);
}

#[test]
fn categories_ignore_case() {
    assert_eq!(get_category("MP4"), MediaCategory::Video);
    assert_eq!(get_category("Flac"), MediaCategory::Audio);
    assert_eq!(get_category("JPEG"), MediaCategory::Image);
    assert_eq!(get_category("SRT"), MediaCategory::Subtitle);
}

#[test]
fn targets_of_each_category() {
    assert_eq!(
        get_targets_for_category(MediaCategory::Video, "avi"),
        vec!["mp4", "mkv", "webm", "mov", "flv", "gif"]
    );
    assert_eq!(
        get_targets_for_category(MediaCategory::Audio, "wav"),
        vec!["mp3", "aac", "m4a", "flac", "ogg", "opus", "wma"]
    );
    assert_eq!(
        get_targets_for_category(MediaCategory::Image, "tif"),
        vec!["png", "jpg", "webp", "bmp", "gif", "tiff"]
    );
    assert_eq!(
        get_targets_for_category(MediaCategory::Subtitle, "VTT"),
        vec!["srt", "ass"]
    );
    assert!(get_targets_for_category(MediaCategory::Unknown, "xyz").is_empty());
    assert_eq!(
        get_targets_for_category(MediaCategory::Video, "MKV"),
        vec!["mp4", "webm", "avi", "mov", "flv", "gif"]
    );
}

#[test]
fn category_names() {
    assert_eq!(MediaCategory::Video.to_string(), "video");
    assert_eq!(MediaCategory::Audio.to_string(), "audio");
    assert_eq!(MediaCategory::Image.to_string(), "image");
    assert_eq!(MediaCategory::Subtitle.to_string(), "subtitle");
    assert_eq!(MediaCategory::Unknown.to_string(), "unknown");
}

fn words(v: &[&str]) -> Vec<String> {
    v.iter().map(|s| s.to_string()).collect()
}

#[test]
fn encode_arguments() {
    assert_eq!(
        get_encode_args(MediaCategory::Video, "mp4"),
        words(&["-c:v", "libx264", "-crf", "22", "-preset", "fast", "-c:a", "aac", "-b:a", "192k", "-movflags", "+faststart"])
    );
    assert_eq!(
        get_encode_args(MediaCategory::Video, "flv"),
        words(&["-c:v", "libx264", "-crf", "23", "-preset", "fast", "-c:a", "aac", "-b:a", "128k"])
    );
    assert_eq!(
        get_encode_args(MediaCategory::Video, "gif"),
        words(&["-vf", "fps=10,scale=480:-1:flags=lanczos"])
    );
    assert_eq!(get_encode_args(MediaCategory::Video, "xyz"), words(&["-c:v", "libx264", "-c:a", "aac"]));
    assert_eq!(get_encode_args(MediaCategory::Audio, "mp3"), words(&["-c:a", "libmp3lame", "-q:a", "2"]));
    assert_eq!(get_encode_args(MediaCategory::Audio, "m4a"), words(&["-c:a", "aac", "-b:a", "192k"]));
    assert_eq!(get_encode_args(MediaCategory::Audio, "wav"), words(&["-c:a", "pcm_s16le"]));
    assert_eq!(get_encode_args(MediaCategory::Audio, "xyz"), words(&["-c:a", "aac"]));
    assert_eq!(get_encode_args(MediaCategory::Image, "jpeg"), words(&["-q:v", "2"]));
    assert_eq!(get_encode_args(MediaCategory::Image, "webp"), words(&["-q:v", "80"]));
    assert!(get_encode_args(MediaCategory::Image, "png").is_empty());
    assert!(get_encode_args(MediaCategory::Subtitle, "srt").is_empty());
    assert!(get_encode_args(MediaCategory::Unknown, "mp4").is_empty());
    // The extension is compared as written.
    assert_eq!(get_encode_args(MediaCategory::Audio, "MP3"), words(&["-c:a", "aac"]));
}

#[test]
fn category_ignores_ascii_case() {
    assert_eq!(get_category("Srt"), MediaCategory::Subtitle);
    assert_eq!(get_category("WaV"), MediaCategory::Audio);
    assert_eq!(get_category("JPEG"), MediaCategory::Image);
    for ext in ["mp4", "flac", "tiff", "vtt", "txt"] {
        assert_eq!(get_category(ext), get_category(&ext.to_ascii_uppercase()));
    }
}

#[test]
fn targets_exclude_source_in_any_case() {
    assert_eq!(
        get_targets_for_category(MediaCategory::Audio, "MP3"),
        vec!["aac", "m4a", "flac", "wav", "ogg", "opus", "wma"]
    );
    assert_eq!(
        get_targets_for_category(MediaCategory::Image, "Png"),
        vec!["jpg", "webp", "bmp", "gif", "tiff"]
    );
}
