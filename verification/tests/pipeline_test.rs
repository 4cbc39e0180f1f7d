use mconv::converter::GpuBackend;
use mconv::formats::MediaCategory;
use mconv::pipeline::{
    invocation, method_name, Completion, FileAction, FileEvent, FileJob, Outcome, Step,
};

fn job(category: MediaCategory, to_ext: &str, delete: bool) -> FileJob {
    FileJob::new("/m/in.src".to_string(), to_ext.to_string(), category, delete)
}

fn feed(j: &mut FileJob, e: FileEvent) -> FileAction {
    assert!(j.expects_event(&e));
    j.next(e)
}

/// Runs the checks up to the first ffmpeg step and returns that step.
fn up_to_first_run(j: &mut FileJob) -> Step {
    assert!(matches!(feed(j, FileEvent::Begin), FileAction::CheckRegular));
    assert!(matches!(feed(j, FileEvent::IsRegular(true)), FileAction::ReadSize));
    assert!(matches!(feed(j, FileEvent::Size(Ok(42))), FileAction::ReadStem));
    match feed(j, FileEvent::Stem(Some("in".to_string()))) {
        FileAction::CheckTarget { file_name } => assert!(file_name.starts_with("in.")),
        _ => panic!("expected a target check"),
    }
    match feed(j, FileEvent::TargetChecked { exists: false, shown: "/m/in.out".to_string() }) {
        FileAction::Prepare { scratch_name } => assert!(scratch_name.starts_with(".mconv_tmp_in.")),
        _ => panic!("expected preparation"),
    }
    match feed(j, FileEvent::Prepared) {
        FileAction::Run { step, .. } => step,
        _ => panic!("expected a run"),
    }
}

fn finish(a: FileAction) -> Completion {
    match a {
        FileAction::Finish(c) => c,
        _ => panic!("expected the end"),
    }
}

#[test]
fn audio_file_converts_and_keeps_original() {
    let mut j = job(MediaCategory::Audio, "mp3", false);
    assert_eq!(up_to_first_run(&mut j), Step::AudioTranscode);
    assert!(matches!(feed(&mut j, FileEvent::Ran { ok: true, error: String::new() }), FileAction::CheckScratch));
    assert!(matches!(feed(&mut j, FileEvent::ScratchChecked(true)), FileAction::Rename));
    let c = finish(feed(&mut j, FileEvent::Renamed(true)));
    assert_eq!(c.outcome, Outcome::Converted);
    assert_eq!(c.message, "/m/in.src -> /m/in.out");
    assert_eq!(c.reason, "in.mp3");
    assert_eq!(c.method, "audio transcode");
    assert!(!c.delete_original && !c.remove_scratch && !c.remove_target);
    assert!(!j.expects_event(&FileEvent::Begin));
}

#[test]
fn original_is_deleted_only_after_success_when_asked() {
    let mut j = job(MediaCategory::Image, "jpg", true);
    assert_eq!(up_to_first_run(&mut j), Step::ImageConversion);
    feed(&mut j, FileEvent::Ran { ok: true, error: String::new() });
    feed(&mut j, FileEvent::ScratchChecked(true));
    let c = finish(feed(&mut j, FileEvent::Renamed(true)));
    assert_eq!(c.outcome, Outcome::Converted);
    assert_eq!(c.method, "image conversion");
    assert!(c.delete_original);

    let mut j = job(MediaCategory::Image, "jpg", true);
    up_to_first_run(&mut j);
    feed(&mut j, FileEvent::Ran { ok: true, error: String::new() });
    feed(&mut j, FileEvent::ScratchChecked(true));
    let c = finish(feed(&mut j, FileEvent::Renamed(false)));
    assert_eq!(c.outcome, Outcome::Failed);
    assert_eq!(c.message, "Atomic rename failed for: /m/in.out");
    assert_eq!(c.reason, "rename failed (original safe)");
    assert!(c.remove_scratch && !c.remove_target && !c.delete_original);
}

#[test]
fn existing_target_is_skipped() {
    let mut j = job(MediaCategory::Audio, "mp3", true);
    feed(&mut j, FileEvent::Begin);
    feed(&mut j, FileEvent::IsRegular(true));
    feed(&mut j, FileEvent::Size(Ok(10)));
    feed(&mut j, FileEvent::Stem(Some("in".to_string())));
    let c = finish(feed(&mut j, FileEvent::TargetChecked { exists: true, shown: "/m/in.mp3".to_string() }));
    assert_eq!(c.outcome, Outcome::Skipped);
    assert_eq!(c.message, "Target already exists: /m/in.mp3");
    assert_eq!(c.reason, "target exists");
    assert!(!c.delete_original && !c.remove_scratch && !c.remove_target);
}

#[test]
fn early_checks_fail_without_touching_files() {
    let mut j = job(MediaCategory::Audio, "mp3", true);
    feed(&mut j, FileEvent::Begin);
    let c = finish(feed(&mut j, FileEvent::IsRegular(false)));
    assert_eq!(c.message, "Not a regular file: /m/in.src");
    assert_eq!(c.reason, "not a regular file");
    assert!(!c.remove_scratch && !c.delete_original);

    let mut j = job(MediaCategory::Audio, "mp3", true);
    feed(&mut j, FileEvent::Begin);
    feed(&mut j, FileEvent::IsRegular(true));
    let c = finish(feed(&mut j, FileEvent::Size(Err("permission denied".to_string()))));
    assert_eq!(c.message, "Cannot read metadata: /m/in.src (permission denied)");
    assert_eq!(c.reason, "cannot read file");

    let mut j = job(MediaCategory::Audio, "mp3", true);
    feed(&mut j, FileEvent::Begin);
    feed(&mut j, FileEvent::IsRegular(true));
    let c = finish(feed(&mut j, FileEvent::Size(Ok(0))));
    assert_eq!(c.message, "Corrupted/empty file (0 bytes): /m/in.src");
    assert_eq!(c.reason, "empty file (0 bytes)");

    let mut j = job(MediaCategory::Audio, "mp3", true);
    feed(&mut j, FileEvent::Begin);
    feed(&mut j, FileEvent::IsRegular(true));
    feed(&mut j, FileEvent::Size(Ok(5)));
    let c = finish(feed(&mut j, FileEvent::Stem(None)));
    assert_eq!(c.message, "Invalid file stem: /m/in.src");
    assert_eq!(c.reason, "invalid filename");
    assert_eq!(c.outcome, Outcome::Failed);
}

#[test]
fn unknown_category_fails_after_preparing() {
    let mut j = job(MediaCategory::Unknown, "xyz", false);
    feed(&mut j, FileEvent::Begin);
    feed(&mut j, FileEvent::IsRegular(true));
    feed(&mut j, FileEvent::Size(Ok(5)));
    feed(&mut j, FileEvent::Stem(Some("in".to_string())));
    feed(&mut j, FileEvent::TargetChecked { exists: false, shown: "/m/in.xyz".to_string() });
    let c = finish(feed(&mut j, FileEvent::Prepared));
    assert_eq!(c.message, "Unknown category: /m/in.src");
    assert_eq!(c.reason, "unknown category");
    assert!(!c.remove_scratch);
}

#[test]
fn video_falls_back_from_remux_to_encode() {
    let mut j = job(MediaCategory::Video, "webm", false);
    assert_eq!(up_to_first_run(&mut j), Step::FastRemux);
    assert!(matches!(
        feed(&mut j, FileEvent::Ran { ok: false, error: "Invalid codec for webm".to_string() }),
        FileAction::ClearScratch
    ));
    match feed(&mut j, FileEvent::Cleared) {
        FileAction::Run { step, .. } => assert_eq!(step, Step::RemuxAudioTranscode),
        _ => panic!("expected the audio-transcoding remux"),
    }
    assert!(matches!(feed(&mut j, FileEvent::Ran { ok: true, error: String::new() }), FileAction::CheckScratch));
    assert!(matches!(feed(&mut j, FileEvent::ScratchChecked(false)), FileAction::ClearScratch));
    assert!(matches!(feed(&mut j, FileEvent::Cleared), FileAction::DetectBackend));
    match feed(&mut j, FileEvent::Backend(GpuBackend::NvidiaNvenc)) {
        FileAction::Run { step, invocation } => {
            assert_eq!(step, Step::Encode(GpuBackend::NvidiaNvenc));
            assert!(invocation.trailing.contains(&"libvpx-vp9".to_string()));
        }
        _ => panic!("expected an encode"),
    }
    // The encode fails silently: the remux error is reported.
    let c = finish(feed(&mut j, FileEvent::Ran { ok: false, error: String::new() }));
    assert_eq!(c.outcome, Outcome::Failed);
    assert_eq!(c.reason, "Invalid codec for webm");
    assert_eq!(c.message, "Failed for: /m/in.src (Invalid codec for webm)");
    assert!(c.remove_scratch && c.remove_target && !c.delete_original);
}

#[test]
fn video_fast_remux_success() {
    let mut j = job(MediaCategory::Video, "mkv", false);
    assert_eq!(up_to_first_run(&mut j), Step::FastRemux);
    feed(&mut j, FileEvent::Ran { ok: true, error: String::new() });
    assert!(matches!(feed(&mut j, FileEvent::ScratchChecked(true)), FileAction::CheckScratch));
    assert!(matches!(feed(&mut j, FileEvent::ScratchChecked(true)), FileAction::Rename));
    let c = finish(feed(&mut j, FileEvent::Renamed(true)));
    assert_eq!(c.method, "fast remux");
    assert_eq!(c.reason, "in.mkv");
}

#[test]
fn gif_and_empty_output() {
    let mut j = job(MediaCategory::Video, "gif", false);
    assert_eq!(up_to_first_run(&mut j), Step::GifRender);
    feed(&mut j, FileEvent::Ran { ok: true, error: String::new() });
    let c = finish(feed(&mut j, FileEvent::ScratchChecked(false)));
    assert_eq!(c.reason, "conversion failed (reverted to original)");
    assert!(c.remove_scratch && c.remove_target);
}

#[test]
fn disk_full_is_named() {
    let mut j = job(MediaCategory::Subtitle, "srt", false);
    assert_eq!(up_to_first_run(&mut j), Step::SubtitleConversion);
    let c = finish(feed(&mut j, FileEvent::Ran { ok: false, error: "Error: No space left on device".to_string() }));
    assert_eq!(c.reason, "DISK FULL: No space left on device");
}

fn w(v: &[&str]) -> Vec<String> {
    v.iter().map(|s| s.to_string()).collect()
}

#[test]
fn invocations_of_each_step() {
    let i = invocation(Step::FastRemux, "mp4");
    assert_eq!(i.leading, w(&["-y", "-nostdin"]));
    assert_eq!(i.trailing, w(&["-map", "0:v:0", "-map", "0:a?", "-c:v", "copy", "-c:a", "copy", "-movflags", "+faststart", "-progress", "pipe:1", "-nostats"]));
    assert!(i.follows_duration);

    let i = invocation(Step::RemuxAudioTranscode, "mkv");
    assert_eq!(i.trailing, w(&["-map", "0:v:0", "-map", "0:a?", "-c:v", "copy", "-c:a", "aac", "-b:a", "192k", "-progress", "pipe:1", "-nostats"]));

    let i = invocation(Step::Encode(GpuBackend::AppleVideoToolbox), "mov");
    assert_eq!(i.leading, w(&["-y", "-nostdin", "-hwaccel", "auto"]));
    assert_eq!(i.trailing, w(&["-map", "0:v:0", "-map", "0:a?", "-c:v", "h264_videotoolbox", "-b:v", "5M", "-c:a", "aac", "-b:a", "192k", "-progress", "pipe:1", "-nostats"]));

    let i = invocation(Step::Encode(GpuBackend::IntelQsv), "mkv");
    assert_eq!(i.trailing, w(&["-map", "0:v:0", "-map", "0:a?", "-c:v", "h264_qsv", "-global_quality", "22", "-c:a", "aac", "-b:a", "192k", "-progress", "pipe:1", "-nostats"]));

    let i = invocation(Step::Encode(GpuBackend::Cpu), "mp4");
    assert_eq!(i.trailing, w(&["-map", "0:v:0", "-map", "0:a?", "-c:v", "libx264", "-crf", "22", "-preset", "fast", "-c:a", "aac", "-b:a", "192k", "-movflags", "+faststart", "-movflags", "+faststart", "-progress", "pipe:1", "-nostats"]));

    let i = invocation(Step::Encode(GpuBackend::NvidiaNvenc), "avi");
    assert_eq!(i.trailing, w(&["-map", "0:v:0", "-map", "0:a?", "-c:v", "mpeg4", "-qscale:v", "5", "-c:a", "libmp3lame", "-qscale:a", "4", "-progress", "pipe:1", "-nostats"]));

    let i = invocation(Step::GifRender, "gif");
    assert_eq!(i.trailing, w(&["-vf", "fps=10,scale=480:-1:flags=lanczos", "-progress", "pipe:1", "-nostats"]));

    let i = invocation(Step::AudioTranscode, "opus");
    assert_eq!(i.leading, w(&["-y", "-nostdin", "-vn"]));
    assert_eq!(i.trailing, w(&["-c:a", "libopus", "-b:a", "128k", "-progress", "pipe:1", "-nostats"]));

    let i = invocation(Step::ImageConversion, "jpg");
    assert_eq!(i.trailing, w(&["-q:v", "2", "-frames:v", "1", "-update", "1", "-progress", "pipe:1", "-nostats"]));
    assert!(!i.follows_duration);

    let i = invocation(Step::SubtitleConversion, "vtt");
    assert_eq!(i.trailing, w(&["-progress", "pipe:1", "-nostats"]));
    assert!(!i.follows_duration);
}

#[test]
fn method_names() {
    assert_eq!(method_name(Step::Encode(GpuBackend::AppleVideoToolbox), "mp4"), "Apple Silicon GPU (VideoToolbox)");
    assert_eq!(method_name(Step::Encode(GpuBackend::AppleVideoToolbox), "webm"), "VP9 webm encode");
    assert_eq!(method_name(Step::Encode(GpuBackend::NvidiaNvenc), "mkv"), "NVIDIA NVENC GPU");
    assert_eq!(method_name(Step::Encode(GpuBackend::IntelQsv), "mov"), "Intel QuickSync GPU");
    assert_eq!(method_name(Step::Encode(GpuBackend::Cpu), "mp4"), "software fast encode");
    assert_eq!(method_name(Step::RemuxAudioTranscode, "mp4"), "video remux (audio transcode)");
    assert_eq!(method_name(Step::GifRender, "gif"), "gif render");
}
