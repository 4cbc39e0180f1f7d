//! The ffmpeg invocations of one file's conversion and the decisions between them.

use vstd::prelude::*;

use crate::converter::{
    failure_message, failure_reason, scratch_file_name, scratch_name, target_file_name, target_name,
    GpuBackend,
};
use crate::formats::{encode_words, MediaCategory};
use crate::text::{lowercase_of, same_text, string_views, to_owned_strings, views};

verus! {

/// One ffmpeg run of a file's conversion.
#[derive(Debug, Clone, Copy, PartialEq, Eq, Structural)]
pub enum Step {
    /// Animated GIF rendering of a video.
    GifRender,
    /// Stream copy of video and audio into the new container.
    FastRemux,
    /// Stream copy of the video with the audio re-encoded to AAC.
    RemuxAudioTranscode,
    /// Full video re-encode, on the given hardware backend where it applies.
    Encode(GpuBackend),
    /// Audio re-encode.
    AudioTranscode,
    /// Single-frame image conversion.
    ImageConversion,
    /// Subtitle conversion.
    SubtitleConversion,
}

/// How an ffmpeg process is started: `ffmpeg <leading> -i <input> <trailing> <output>`.
pub struct Invocation {
    pub leading: Vec<String>,
    pub trailing: Vec<String>,
    /// Whether progress is measured against the input's duration.
    pub follows_duration: bool,
}

/// Containers the hardware H.264 encoders are used for.
pub open spec fn hardware_container(ext: Seq<char>) -> bool {
    ext == "mp4"@ || ext == "mov"@ || ext == "mkv"@
}

/// The video and audio codec options of a full re-encode.
pub open spec fn encode_codec_words(b: GpuBackend, ext: Seq<char>) -> Seq<&'static str> {
    if b == GpuBackend::AppleVideoToolbox && hardware_container(ext) {
        seq!["-c:v", "h264_videotoolbox", "-b:v", "5M", "-c:a", "aac", "-b:a", "192k"]
    } else if b == GpuBackend::NvidiaNvenc && hardware_container(ext) {
        seq!["-c:v", "h264_nvenc", "-preset", "p4", "-cq", "22", "-c:a", "aac", "-b:a", "192k"]
    } else if b == GpuBackend::IntelQsv && hardware_container(ext) {
        seq!["-c:v", "h264_qsv", "-global_quality", "22", "-c:a", "aac", "-b:a", "192k"]
    } else if ext == "webm"@ {
        seq!["-c:v", "libvpx-vp9", "-crf", "32", "-b:v", "0", "-deadline", "realtime", "-cpu-used", "4", "-c:a", "libopus", "-b:a", "128k"]
    } else {
        encode_words(MediaCategory::Video, ext)
    }
}

/// The name of the method a step stands for, as reported for a converted file.
pub open spec fn step_method(step: Step, ext: Seq<char>) -> Seq<char> {
    match step {
        Step::GifRender => "gif render"@,
        Step::FastRemux => "fast remux"@,
        Step::RemuxAudioTranscode => "video remux (audio transcode)"@,
        Step::Encode(b) => if b == GpuBackend::AppleVideoToolbox && hardware_container(ext) {
            "Apple Silicon GPU (VideoToolbox)"@
        } else if b == GpuBackend::NvidiaNvenc && hardware_container(ext) {
            "NVIDIA NVENC GPU"@
        } else if b == GpuBackend::IntelQsv && hardware_container(ext) {
            "Intel QuickSync GPU"@
        } else if ext == "webm"@ {
            "VP9 webm encode"@
        } else {
            "software fast encode"@
        },
        Step::AudioTranscode => "audio transcode"@,
        Step::ImageConversion => "image conversion"@,
        Step::SubtitleConversion => "subtitle conversion"@,
    }
}

/// Machine-readable progress on standard output, no statistics line.
pub open spec fn progress_words() -> Seq<&'static str> {
    seq!["-progress", "pipe:1", "-nostats"]
}

/// The first video stream and every audio stream.
pub open spec fn map_words() -> Seq<&'static str> {
    seq!["-map", "0:v:0", "-map", "0:a?"]
}

/// MP4 output gets its index moved to the front.
pub open spec fn faststart_words(ext: Seq<char>) -> Seq<&'static str> {
    if ext == "mp4"@ {
        seq!["-movflags", "+faststart"]
    } else {
        Seq::empty()
    }
}

/// The options before `-i`.
pub open spec fn step_leading(step: Step) -> Seq<&'static str> {
    match step {
        Step::Encode(_) => seq!["-y", "-nostdin", "-hwaccel", "auto"],
        Step::AudioTranscode => seq!["-y", "-nostdin", "-vn"],
        _ => seq!["-y", "-nostdin"],
    }
}

/// The options between the input and the output.
pub open spec fn step_trailing(step: Step, ext: Seq<char>) -> Seq<&'static str> {
    match step {
        Step::GifRender => seq!["-vf", "fps=10,scale=480:-1:flags=lanczos"] + progress_words(),
        Step::FastRemux => map_words() + seq!["-c:v", "copy", "-c:a", "copy"] + faststart_words(ext)
            + progress_words(),
        Step::RemuxAudioTranscode => map_words() + seq![
            "-c:v",
            "copy",
            "-c:a",
            "aac",
            "-b:a",
            "192k",
        ] + faststart_words(ext) + progress_words(),
        Step::Encode(b) => map_words() + encode_codec_words(b, ext) + faststart_words(ext)
            + progress_words(),
        Step::AudioTranscode => encode_words(MediaCategory::Audio, ext) + progress_words(),
        Step::ImageConversion => encode_words(MediaCategory::Image, ext) + seq![
            "-frames:v",
            "1",
            "-update",
            "1",
        ] + progress_words(),
        Step::SubtitleConversion => progress_words(),
    }
}

/// Whether a step's progress is measured against the input's duration.
pub open spec fn step_follows_duration(step: Step) -> bool {
    !(step == Step::ImageConversion || step == Step::SubtitleConversion)
}

fn is_hardware_container(ext: &str) -> (r: bool)
    ensures
        r == hardware_container(ext@),
{
    same_text(ext, "mp4") || same_text(ext, "mov") || same_text(ext, "mkv")
}

fn encode_codec_list(b: GpuBackend, ext: &str) -> (r: Vec<&'static str>)
    ensures
        r@ == encode_codec_words(b, ext@),
{
    let hw = is_hardware_container(ext);
    if b == GpuBackend::AppleVideoToolbox && hw {
        vec!["-c:v", "h264_videotoolbox", "-b:v", "5M", "-c:a", "aac", "-b:a", "192k"]
    } else if b == GpuBackend::NvidiaNvenc && hw {
        vec!["-c:v", "h264_nvenc", "-preset", "p4", "-cq", "22", "-c:a", "aac", "-b:a", "192k"]
    } else if b == GpuBackend::IntelQsv && hw {
        vec!["-c:v", "h264_qsv", "-global_quality", "22", "-c:a", "aac", "-b:a", "192k"]
    } else if same_text(ext, "webm") {
        vec!["-c:v", "libvpx-vp9", "-crf", "32", "-b:v", "0", "-deadline", "realtime", "-cpu-used", "4", "-c:a", "libopus", "-b:a", "128k"]
    } else {
        crate::formats::encode_word_list(MediaCategory::Video, ext)
    }
}

/// The method name of a step.
pub fn method_name(step: Step, ext: &str) -> (r: String)
    ensures
        r@ == step_method(step, ext@),
{
    match step {
        Step::GifRender => String::from_str("gif render"),
        Step::FastRemux => String::from_str("fast remux"),
        Step::RemuxAudioTranscode => String::from_str("video remux (audio transcode)"),
        Step::Encode(b) => {
            let hw = is_hardware_container(ext);
            if b == GpuBackend::AppleVideoToolbox && hw {
                String::from_str("Apple Silicon GPU (VideoToolbox)")
            } else if b == GpuBackend::NvidiaNvenc && hw {
                String::from_str("NVIDIA NVENC GPU")
            } else if b == GpuBackend::IntelQsv && hw {
                String::from_str("Intel QuickSync GPU")
            } else if same_text(ext, "webm") {
                String::from_str("VP9 webm encode")
            } else {
                String::from_str("software fast encode")
            }
        },
        Step::AudioTranscode => String::from_str("audio transcode"),
        Step::ImageConversion => String::from_str("image conversion"),
        Step::SubtitleConversion => String::from_str("subtitle conversion"),
    }
}

fn faststart_list(ext: &str) -> (r: Vec<&'static str>)
    ensures
        r@ == faststart_words(ext@),
{
    if same_text(ext, "mp4") {
        vec!["-movflags", "+faststart"]
    } else {
        Vec::new()
    }
}

fn joined(a: Vec<&'static str>, b: Vec<&'static str>) -> (r: Vec<&'static str>)
    ensures
        r@ == a@ + b@,
{
    let mut a = a;
    let mut b = b;
    a.append(&mut b);
    a
}

fn trailing_list(step: Step, ext: &str) -> (r: Vec<&'static str>)
    ensures
        r@ == step_trailing(step, ext@),
{
    let progress = vec!["-progress", "pipe:1", "-nostats"];
    let maps = vec!["-map", "0:v:0", "-map", "0:a?"];
    match step {
        Step::GifRender => joined(vec!["-vf", "fps=10,scale=480:-1:flags=lanczos"], progress),
        Step::FastRemux => joined(
            joined(joined(maps, vec!["-c:v", "copy", "-c:a", "copy"]), faststart_list(ext)),
            progress,
        ),
        Step::RemuxAudioTranscode => joined(
            joined(
                joined(maps, vec!["-c:v", "copy", "-c:a", "aac", "-b:a", "192k"]),
                faststart_list(ext),
            ),
            progress,
        ),
        Step::Encode(b) => joined(
            joined(joined(maps, encode_codec_list(b, ext)), faststart_list(ext)),
            progress,
        ),
        Step::AudioTranscode => joined(
            crate::formats::encode_word_list(MediaCategory::Audio, ext),
            progress,
        ),
        Step::ImageConversion => joined(
            joined(
                crate::formats::encode_word_list(MediaCategory::Image, ext),
                vec!["-frames:v", "1", "-update", "1"],
            ),
            progress,
        ),
        Step::SubtitleConversion => progress,
    }
}

/// The ffmpeg invocation of `step` producing a `ext` file.
pub fn invocation(step: Step, ext: &str) -> (r: Invocation)
    ensures
        string_views(r.leading@) == views(step_leading(step)),
        string_views(r.trailing@) == views(step_trailing(step, ext@)),
        r.follows_duration == step_follows_duration(step),
{
    let leading: Vec<&'static str> = match step {
        Step::Encode(_) => vec!["-y", "-nostdin", "-hwaccel", "auto"],
        Step::AudioTranscode => vec!["-y", "-nostdin", "-vn"],
        _ => vec!["-y", "-nostdin"],
    };
    let trailing = trailing_list(step, ext);
    Invocation {
        leading: to_owned_strings(&leading),
        trailing: to_owned_strings(&trailing),
        follows_duration: !(step == Step::ImageConversion || step == Step::SubtitleConversion),
    }
}

/// Where one file's conversion stands: which answer it waits for.
#[derive(Debug, Clone, Copy, PartialEq, Eq, Structural)]
pub enum Phase {
    Start,
    AwaitRegular,
    AwaitSize,
    AwaitStem,
    AwaitTarget,
    AwaitPrepared,
    AwaitRun(Step),
    AwaitRemuxCheck(Step),
    AwaitClear(Step),
    AwaitBackend,
    AwaitVerify,
    AwaitRename,
    Done,
}

/// How a file's conversion ended.
#[derive(Debug, Clone, Copy, PartialEq, Eq, Structural)]
pub enum Outcome {
    Converted,
    Skipped,
    Failed,
}

/// The end of a file's conversion: what to report and what to clean up.
pub struct Completion {
    pub outcome: Outcome,
    /// The log line's text; for a converted file, "<input> -> <target>".
    pub message: String,
    /// For a skipped or failed file, the short reason; for a converted file,
    /// the new file's name.
    pub reason: String,
    /// For a converted file, how it was converted; empty otherwise.
    pub method: String,
    /// Remove the scratch file before reporting.
    pub remove_scratch: bool,
    /// Remove the target file before reporting.
    pub remove_target: bool,
    /// Remove the original file after reporting.
    pub delete_original: bool,
}

/// What the caller observed for the action it was last given.
pub enum FileEvent {
    /// The conversion of this file begins.
    Begin,
    /// Whether the input is a regular file.
    IsRegular(bool),
    /// The input's size, or the error reading its metadata.
    Size(Result<u64, String>),
    /// The input's file stem, if it has one.
    Stem(Option<String>),
    /// Whether the target exists, and how its path is shown.
    TargetChecked { exists: bool, shown: String },
    /// The stale scratch file is gone and the input's duration probed.
    Prepared,
    /// ffmpeg finished: its success and its error summary.
    Ran { ok: bool, error: String },
    /// Whether the scratch file exists and is not empty.
    ScratchChecked(bool),
    /// The scratch file was removed.
    Cleared,
    /// The hardware backend of the local ffmpeg.
    Backend(GpuBackend),
    /// Whether the scratch file was renamed onto the target.
    Renamed(bool),
}

/// What the caller has to do next for this file.
pub enum FileAction {
    /// Tell whether the input is a regular file.
    CheckRegular,
    /// Read the input's size.
    ReadSize,
    /// Read the input's file stem.
    ReadStem,
    /// Tell whether `file_name` exists beside the input.
    CheckTarget { file_name: String },
    /// Remove a stale `scratch_name` beside the input and probe the duration.
    Prepare { scratch_name: String },
    /// Run ffmpeg from the input into the scratch file.
    Run { step: Step, invocation: Invocation },
    /// Tell whether the scratch file exists and is not empty.
    CheckScratch,
    /// Remove the scratch file.
    ClearScratch,
    /// Find the hardware backend of the local ffmpeg.
    DetectBackend,
    /// Rename the scratch file onto the target.
    Rename,
    /// Report the file and clean up as told; nothing follows.
    Finish(Completion),
}

/// The conversion of one file, driven by events from the caller.
pub struct FileJob {
    /// How the input path is shown.
    pub input: String,
    pub to_ext: String,
    pub category: MediaCategory,
    pub delete_originals: bool,
    pub phase: Phase,
    pub stem: String,
    /// How the target path is shown, once checked.
    pub target_shown: String,
    /// The target was checked and found absent.
    pub target_free: bool,
    /// The method of the step that produced the output.
    pub method: String,
    /// The error the conversion reports if its output is not usable.
    pub error: String,
}

/// Whether `e` answers the action issued in phase `p`.
pub open spec fn expects(p: Phase, e: FileEvent) -> bool {
    match p {
        Phase::Start => e is Begin,
        Phase::AwaitRegular => e is IsRegular,
        Phase::AwaitSize => e is Size,
        Phase::AwaitStem => e is Stem,
        Phase::AwaitTarget => e is TargetChecked,
        Phase::AwaitPrepared => e is Prepared,
        Phase::AwaitRun(_) => e is Ran,
        Phase::AwaitRemuxCheck(_) => e is ScratchChecked,
        Phase::AwaitClear(_) => e is Cleared,
        Phase::AwaitBackend => e is Backend,
        Phase::AwaitVerify => e is ScratchChecked,
        Phase::AwaitRename => e is Renamed,
        Phase::Done => false,
    }
}

/// Phases in which the conversion writes, or may have written, the scratch file.
pub open spec fn converting(p: Phase) -> bool {
    p is AwaitPrepared || p is AwaitRun || p is AwaitRemuxCheck || p is AwaitClear
        || p is AwaitBackend || p is AwaitVerify || p is AwaitRename
}

/// How many steps at most remain before the file is finished.
pub open spec fn rank(p: Phase) -> nat {
    match p {
        Phase::Start => 20,
        Phase::AwaitRegular => 19,
        Phase::AwaitSize => 18,
        Phase::AwaitStem => 17,
        Phase::AwaitTarget => 16,
        Phase::AwaitPrepared => 15,
        Phase::AwaitRun(s) => if s == Step::FastRemux {
            14
        } else if s == Step::RemuxAudioTranscode {
            11
        } else {
            7
        },
        Phase::AwaitRemuxCheck(s) => if s == Step::FastRemux {
            13
        } else {
            10
        },
        Phase::AwaitClear(s) => if s == Step::FastRemux {
            12
        } else {
            9
        },
        Phase::AwaitBackend => 8,
        Phase::AwaitVerify => 3,
        Phase::AwaitRename => 2,
        Phase::Done => 0,
    }
}

impl FileJob {
    /// A job is well formed when the target was found absent before any
    /// conversion work, and the remux phases only hold remux steps.
    pub open spec fn wf(&self) -> bool {
        &&& converting(self.phase) ==> self.target_free
        &&& self.phase matches Phase::AwaitRemuxCheck(s) ==> (s == Step::FastRemux || s
            == Step::RemuxAudioTranscode)
        &&& self.phase matches Phase::AwaitClear(s) ==> (s == Step::FastRemux || s
            == Step::RemuxAudioTranscode)
    }

    /// The fixed part of the job is unchanged from `self` to `other`.
    pub open spec fn same_task(&self, other: FileJob) -> bool {
        &&& other.input@ == self.input@
        &&& other.to_ext@ == self.to_ext@
        &&& other.category == self.category
        &&& other.delete_originals == self.delete_originals
    }
}

/// `a` finishes the file as failed with the given log text and reason,
/// removing the scratch and target files exactly when `cleanup` holds.
pub open spec fn fails_with(a: FileAction, message: Seq<char>, reason: Seq<char>, cleanup: bool) -> bool {
    &&& a matches FileAction::Finish(c)
    &&& c.outcome == Outcome::Failed
    &&& c.message@ == message
    &&& c.reason@ == reason
    &&& c.method@ == Seq::<char>::empty()
    &&& c.remove_scratch == cleanup
    &&& c.remove_target == cleanup
    &&& !c.delete_original
}

/// `a` runs `step` for a `ext` output.
pub open spec fn runs(a: FileAction, step: Step, ext: Seq<char>) -> bool {
    &&& a matches FileAction::Run { step: s, invocation: inv }
    &&& s == step
    &&& string_views(inv.leading@) == views(step_leading(step))
    &&& string_views(inv.trailing@) == views(step_trailing(step, ext))
    &&& inv.follows_duration == step_follows_duration(step)
}

/// After the pipeline: a successful step is verified on disk, a failed one
/// ends the file with cleanup and the reason derived from `error`.
pub open spec fn settles(j: FileJob, nj: FileJob, a: FileAction, ok: bool, method: Seq<char>, error: Seq<char>) -> bool {
    if ok {
        &&& a is CheckScratch
        &&& nj.phase == Phase::AwaitVerify
        &&& nj.method@ == method
        &&& nj.error@ == error
    } else {
        let reason = failure_reason(error, lowercase_of(error));
        &&& fails_with(a, "Failed for: "@ + j.input@ + " ("@ + reason + ")"@, reason, true)
        &&& nj.phase == Phase::Done
    }
}

/// The first step for a category once the scratch file is prepared.
pub open spec fn first_step(c: MediaCategory, ext: Seq<char>) -> Step {
    match c {
        MediaCategory::Video => if ext == "gif"@ {
            Step::GifRender
        } else {
            Step::FastRemux
        },
        MediaCategory::Audio => Step::AudioTranscode,
        MediaCategory::Image => Step::ImageConversion,
        _ => Step::SubtitleConversion,
    }
}

/// `e` reports that the target does not exist.
pub open spec fn finds_target_absent(e: FileEvent) -> bool {
    match e {
        FileEvent::TargetChecked { exists, .. } => !exists,
        _ => false,
    }
}

/// One transition: from job `j`, on event `e`, to job `nj` with action `a`.
pub open spec fn transition(j: FileJob, e: FileEvent, nj: FileJob, a: FileAction) -> bool {
    &&& j.same_task(nj)
    &&& nj.target_free == (j.target_free || (j.phase == Phase::AwaitTarget && finds_target_absent(e)))
    &&& nj.stem@ == (match e {
        FileEvent::Stem(Some(stem)) => if j.phase == Phase::AwaitStem {
            stem@
        } else {
            j.stem@
        },
        _ => j.stem@,
    })
    &&& nj.target_shown@ == (match e {
        FileEvent::TargetChecked { exists, shown } => if j.phase == Phase::AwaitTarget && !exists {
            shown@
        } else {
            j.target_shown@
        },
        _ => j.target_shown@,
    })
    &&& (nj.phase != Phase::AwaitVerify || j.phase == Phase::AwaitVerify) ==> nj.method@ == j.method@
    &&& match j.phase {
        Phase::Start => a is CheckRegular && nj.phase == Phase::AwaitRegular,
        Phase::AwaitRegular => match e {
            FileEvent::IsRegular(true) => a is ReadSize && nj.phase == Phase::AwaitSize,
            _ => fails_with(a, "Not a regular file: "@ + j.input@, "not a regular file"@, false)
                && nj.phase == Phase::Done,
        },
        Phase::AwaitSize => match e {
            FileEvent::Size(Ok(n)) => if n == 0 {
                fails_with(a, "Corrupted/empty file (0 bytes): "@ + j.input@, "empty file (0 bytes)"@, false)
                    && nj.phase == Phase::Done
            } else {
                a is ReadStem && nj.phase == Phase::AwaitStem
            },
            FileEvent::Size(Err(msg)) => fails_with(
                a,
                "Cannot read metadata: "@ + j.input@ + " ("@ + msg@ + ")"@,
                "cannot read file"@,
                false,
            ) && nj.phase == Phase::Done,
            _ => false,
        },
        Phase::AwaitStem => match e {
            FileEvent::Stem(Some(stem)) => {
                &&& a matches FileAction::CheckTarget { file_name } && file_name@ == target_name(stem@, j.to_ext@)
                &&& nj.phase == Phase::AwaitTarget
                &&& nj.stem@ == stem@
            },
            _ => fails_with(a, "Invalid file stem: "@ + j.input@, "invalid filename"@, false)
                && nj.phase == Phase::Done,
        },
        Phase::AwaitTarget => match e {
            FileEvent::TargetChecked { exists, shown } => if exists {
                &&& a matches FileAction::Finish(c)
                &&& c.outcome == Outcome::Skipped
                &&& c.message@ == "Target already exists: "@ + shown@
                &&& c.reason@ == "target exists"@
                &&& c.method@ == Seq::<char>::empty()
                &&& !c.remove_scratch && !c.remove_target && !c.delete_original
                &&& nj.phase == Phase::Done
            } else {
                &&& a matches FileAction::Prepare { scratch_name: name } && name@ == scratch_name(j.stem@, j.to_ext@)
                &&& nj.phase == Phase::AwaitPrepared
                &&& nj.target_free
                &&& nj.target_shown@ == shown@
                &&& nj.stem@ == j.stem@
            },
            _ => false,
        },
        Phase::AwaitPrepared => if j.category == MediaCategory::Unknown {
            fails_with(a, "Unknown category: "@ + j.input@, "unknown category"@, false)
                && nj.phase == Phase::Done
        } else {
            let s = first_step(j.category, j.to_ext@);
            &&& runs(a, s, j.to_ext@)
            &&& nj.phase == Phase::AwaitRun(s)
            &&& nj.target_free
        },
        Phase::AwaitRun(step) => match e {
            FileEvent::Ran { ok, error } => if step == Step::FastRemux {
                &&& nj.error@ == error@
                &&& if ok {
                    a is CheckScratch && nj.phase == Phase::AwaitRemuxCheck(step)
                } else {
                    a is ClearScratch && nj.phase == Phase::AwaitClear(step)
                }
                &&& nj.target_free
            } else if step == Step::RemuxAudioTranscode {
                &&& nj.error@ == j.error@
                &&& if ok {
                    a is CheckScratch && nj.phase == Phase::AwaitRemuxCheck(step)
                } else {
                    a is ClearScratch && nj.phase == Phase::AwaitClear(step)
                }
                &&& nj.target_free
            } else if step is Encode {
                settles(
                    j,
                    nj,
                    a,
                    ok,
                    step_method(step, j.to_ext@),
                    if error@.len() == 0 { j.error@ } else { error@ },
                ) && nj.target_free
            } else {
                settles(j, nj, a, ok, step_method(step, j.to_ext@), error@) && nj.target_free
            },
            _ => false,
        },
        Phase::AwaitRemuxCheck(step) => match e {
            FileEvent::ScratchChecked(valid) => if valid {
                settles(j, nj, a, true, step_method(step, j.to_ext@), Seq::empty()) && nj.target_free
            } else {
                a is ClearScratch && nj.phase == Phase::AwaitClear(step) && nj.error@ == j.error@
                    && nj.target_free
            },
            _ => false,
        },
        Phase::AwaitClear(step) => if step == Step::FastRemux {
            &&& runs(a, Step::RemuxAudioTranscode, j.to_ext@)
            &&& nj.phase == Phase::AwaitRun(Step::RemuxAudioTranscode)
            &&& nj.error@ == j.error@
            &&& nj.target_free
        } else {
            a is DetectBackend && nj.phase == Phase::AwaitBackend && nj.error@ == j.error@
                && nj.target_free
        },
        Phase::AwaitBackend => match e {
            FileEvent::Backend(b) => {
                &&& runs(a, Step::Encode(b), j.to_ext@)
                &&& nj.phase == Phase::AwaitRun(Step::Encode(b))
                &&& nj.error@ == j.error@
                &&& nj.target_free
            },
            _ => false,
        },
        Phase::AwaitVerify => match e {
            FileEvent::ScratchChecked(valid) => if valid {
                a is Rename && nj.phase == Phase::AwaitRename && nj.method@ == j.method@
                    && nj.target_free
            } else {
                let reason = failure_reason(j.error@, lowercase_of(j.error@));
                fails_with(a, "Failed for: "@ + j.input@ + " ("@ + reason + ")"@, reason, true)
                    && nj.phase == Phase::Done
            },
            _ => false,
        },
        Phase::AwaitRename => match e {
            FileEvent::Renamed(true) => {
                &&& a matches FileAction::Finish(c)
                &&& c.outcome == Outcome::Converted
                &&& c.message@ == j.input@ + " -> "@ + j.target_shown@
                &&& c.reason@ == target_name(j.stem@, j.to_ext@)
                &&& c.method@ == j.method@
                &&& !c.remove_scratch && !c.remove_target
                &&& c.delete_original == j.delete_originals
                &&& nj.phase == Phase::Done
            },
            _ => {
                &&& a matches FileAction::Finish(c)
                &&& c.outcome == Outcome::Failed
                &&& c.message@ == "Atomic rename failed for: "@ + j.target_shown@
                &&& c.reason@ == "rename failed (original safe)"@
                &&& c.method@ == Seq::<char>::empty()
                &&& c.remove_scratch && !c.remove_target && !c.delete_original
                &&& nj.phase == Phase::Done
            },
        },
        Phase::Done => false,
    }
}

fn text2(a: &str, b: &str) -> (r: String)
    ensures
        r@ == a@ + b@,
{
    let mut r = String::from_str(a);
    r.append(b);
    r
}

fn text4(a: &str, b: &str, c: &str, d: &str) -> (r: String)
    ensures
        r@ == a@ + b@ + c@ + d@,
{
    let mut r = String::from_str(a);
    r.append(b);
    r.append(c);
    r.append(d);
    r
}

fn failure(message: String, reason: String, cleanup: bool) -> (a: FileAction)
    ensures
        fails_with(a, message@, reason@, cleanup),
{
    FileAction::Finish(
        Completion {
            outcome: Outcome::Failed,
            message,
            reason,
            method: String::new(),
            remove_scratch: cleanup,
            remove_target: cleanup,
            delete_original: false,
        },
    )
}

impl FileJob {
    /// A job for the input shown as `input`, converted to `to_ext` as a
    /// `category` file; originals are deleted after success when asked.
    pub fn new(input: String, to_ext: String, category: MediaCategory, delete_originals: bool) -> (r: FileJob)
        ensures
            r.wf(),
            r.phase == Phase::Start,
            r.input@ == input@,
            r.to_ext@ == to_ext@,
            r.category == category,
            r.delete_originals == delete_originals,
            !r.target_free,
            r.stem@ == Seq::<char>::empty(),
            r.target_shown@ == Seq::<char>::empty(),
            r.method@ == Seq::<char>::empty(),
            r.error@ == Seq::<char>::empty(),
    {
        FileJob {
            input,
            to_ext,
            category,
            delete_originals,
            phase: Phase::Start,
            stem: String::new(),
            target_shown: String::new(),
            target_free: false,
            method: String::new(),
            error: String::new(),
        }
    }

    /// Whether `event` answers the action this job last issued.
    pub fn expects_event(&self, event: &FileEvent) -> (r: bool)
        ensures
            r == expects(self.phase, *event),
    {
        match self.phase {
            Phase::Start => matches!(event, FileEvent::Begin),
            Phase::AwaitRegular => matches!(event, FileEvent::IsRegular(_)),
            Phase::AwaitSize => matches!(event, FileEvent::Size(_)),
            Phase::AwaitStem => matches!(event, FileEvent::Stem(_)),
            Phase::AwaitTarget => matches!(event, FileEvent::TargetChecked { .. }),
            Phase::AwaitPrepared => matches!(event, FileEvent::Prepared),
            Phase::AwaitRun(_) => matches!(event, FileEvent::Ran { .. }),
            Phase::AwaitRemuxCheck(_) => matches!(event, FileEvent::ScratchChecked(_)),
            Phase::AwaitClear(_) => matches!(event, FileEvent::Cleared),
            Phase::AwaitBackend => matches!(event, FileEvent::Backend(_)),
            Phase::AwaitVerify => matches!(event, FileEvent::ScratchChecked(_)),
            Phase::AwaitRename => matches!(event, FileEvent::Renamed(_)),
            Phase::Done => false,
        }
    }

    fn run(&self, step: Step) -> (a: FileAction)
        ensures
            runs(a, step, self.to_ext@),
    {
        let inv = invocation(step, self.to_ext.as_str());
        FileAction::Run { step, invocation: inv }
    }

    /// After the pipeline's last run: verify the output or fail with cleanup.
    fn settle(&mut self, ok: bool, method: String, error: String) -> (a: FileAction)
        ensures
            settles(*old(self), *final(self), a, ok, method@, error@),
            old(self).same_task(*final(self)),
            final(self).target_shown@ == old(self).target_shown@,
            final(self).target_free == old(self).target_free,
            final(self).stem@ == old(self).stem@,
            !ok ==> final(self).method@ == old(self).method@,
    {
        if ok {
            self.phase = Phase::AwaitVerify;
            self.method = method;
            self.error = error;
            FileAction::CheckScratch
        } else {
            let reason = failure_message(error.as_str());
            let message = text4("Failed for: ", self.input.as_str(), " (", reason.as_str());
            let mut message = message;
            message.append(")");
            self.phase = Phase::Done;
            failure(message, reason, true)
        }
    }

    /// Takes the caller's answer to the last action and gives the next action.
    pub fn next(&mut self, event: FileEvent) -> (a: FileAction)
        requires
            old(self).wf(),
            expects(old(self).phase, event),
        ensures
            transition(*old(self), event, *final(self), a),
            final(self).wf(),
    {
        match self.phase {
            Phase::Start => {
                self.phase = Phase::AwaitRegular;
                FileAction::CheckRegular
            },
            Phase::AwaitRegular => match event {
                FileEvent::IsRegular(true) => {
                    self.phase = Phase::AwaitSize;
                    FileAction::ReadSize
                },
                _ => {
                    self.phase = Phase::Done;
                    failure(
                        text2("Not a regular file: ", self.input.as_str()),
                        String::from_str("not a regular file"),
                        false,
                    )
                },
            },
            Phase::AwaitSize => match event {
                FileEvent::Size(Ok(n)) => if n == 0 {
                    self.phase = Phase::Done;
                    failure(
                        text2("Corrupted/empty file (0 bytes): ", self.input.as_str()),
                        String::from_str("empty file (0 bytes)"),
                        false,
                    )
                } else {
                    self.phase = Phase::AwaitStem;
                    FileAction::ReadStem
                },
                FileEvent::Size(Err(msg)) => {
                    self.phase = Phase::Done;
                    let mut m = text4("Cannot read metadata: ", self.input.as_str(), " (", msg.as_str());
                    m.append(")");
                    failure(m, String::from_str("cannot read file"), false)
                },
                _ => {
                    proof {
                        assert(false);
                    }
                    FileAction::ReadStem
                },
            },
            Phase::AwaitStem => match event {
                FileEvent::Stem(Some(stem)) => {
                    let file_name = target_file_name(stem.as_str(), self.to_ext.as_str());
                    self.stem = stem;
                    self.phase = Phase::AwaitTarget;
                    FileAction::CheckTarget { file_name }
                },
                _ => {
                    self.phase = Phase::Done;
                    failure(
                        text2("Invalid file stem: ", self.input.as_str()),
                        String::from_str("invalid filename"),
                        false,
                    )
                },
            },
            Phase::AwaitTarget => match event {
                FileEvent::TargetChecked { exists, shown } => if exists {
                    self.phase = Phase::Done;
                    FileAction::Finish(
                        Completion {
                            outcome: Outcome::Skipped,
                            message: text2("Target already exists: ", shown.as_str()),
                            reason: String::from_str("target exists"),
                            method: String::new(),
                            remove_scratch: false,
                            remove_target: false,
                            delete_original: false,
                        },
                    )
                } else {
                    let name = scratch_file_name(self.stem.as_str(), self.to_ext.as_str());
                    self.target_shown = shown;
                    self.target_free = true;
                    self.phase = Phase::AwaitPrepared;
                    FileAction::Prepare { scratch_name: name }
                },
                _ => {
                    proof {
                        assert(false);
                    }
                    FileAction::ReadStem
                },
            },
            Phase::AwaitPrepared => match self.category {
                MediaCategory::Unknown => {
                    self.phase = Phase::Done;
                    failure(
                        text2("Unknown category: ", self.input.as_str()),
                        String::from_str("unknown category"),
                        false,
                    )
                },
                MediaCategory::Video => {
                    let step = if same_text(self.to_ext.as_str(), "gif") {
                        Step::GifRender
                    } else {
                        Step::FastRemux
                    };
                    self.phase = Phase::AwaitRun(step);
                    self.run(step)
                },
                MediaCategory::Audio => {
                    self.phase = Phase::AwaitRun(Step::AudioTranscode);
                    self.run(Step::AudioTranscode)
                },
                MediaCategory::Image => {
                    self.phase = Phase::AwaitRun(Step::ImageConversion);
                    self.run(Step::ImageConversion)
                },
                MediaCategory::Subtitle => {
                    self.phase = Phase::AwaitRun(Step::SubtitleConversion);
                    self.run(Step::SubtitleConversion)
                },
            },
            Phase::AwaitRun(step) => match event {
                FileEvent::Ran { ok, error } => match step {
                    Step::FastRemux => {
                        self.error = error;
                        if ok {
                            self.phase = Phase::AwaitRemuxCheck(step);
                            FileAction::CheckScratch
                        } else {
                            self.phase = Phase::AwaitClear(step);
                            FileAction::ClearScratch
                        }
                    },
                    Step::RemuxAudioTranscode => {
                        if ok {
                            self.phase = Phase::AwaitRemuxCheck(step);
                            FileAction::CheckScratch
                        } else {
                            self.phase = Phase::AwaitClear(step);
                            FileAction::ClearScratch
                        }
                    },
                    Step::Encode(_) => {
                        let method = method_name(step, self.to_ext.as_str());
                        let err = if error.as_str().is_empty() {
                            self.error.clone()
                        } else {
                            error
                        };
                        self.settle(ok, method, err)
                    },
                    _ => {
                        let method = method_name(step, self.to_ext.as_str());
                        self.settle(ok, method, error)
                    },
                },
                _ => {
                    proof {
                        assert(false);
                    }
                    FileAction::ReadStem
                },
            },
            Phase::AwaitRemuxCheck(step) => match event {
                FileEvent::ScratchChecked(valid) => if valid {
                    let method = method_name(step, self.to_ext.as_str());
                    self.settle(true, method, String::new())
                } else {
                    self.phase = Phase::AwaitClear(step);
                    FileAction::ClearScratch
                },
                _ => {
                    proof {
                        assert(false);
                    }
                    FileAction::ReadStem
                },
            },
            Phase::AwaitClear(step) => if step == Step::FastRemux {
                self.phase = Phase::AwaitRun(Step::RemuxAudioTranscode);
                self.run(Step::RemuxAudioTranscode)
            } else {
                self.phase = Phase::AwaitBackend;
                FileAction::DetectBackend
            },
            Phase::AwaitBackend => match event {
                FileEvent::Backend(b) => {
                    self.phase = Phase::AwaitRun(Step::Encode(b));
                    self.run(Step::Encode(b))
                },
                _ => {
                    proof {
                        assert(false);
                    }
                    FileAction::ReadStem
                },
            },
            Phase::AwaitVerify => match event {
                FileEvent::ScratchChecked(valid) => if valid {
                    self.phase = Phase::AwaitRename;
                    FileAction::Rename
                } else {
                    let reason = failure_message(self.error.as_str());
                    let mut m = text4("Failed for: ", self.input.as_str(), " (", reason.as_str());
                    m.append(")");
                    self.phase = Phase::Done;
                    failure(m, reason, true)
                },
                _ => {
                    proof {
                        assert(false);
                    }
                    FileAction::ReadStem
                },
            },
            Phase::AwaitRename => match event {
                FileEvent::Renamed(true) => {
                    let mut m = text2(self.input.as_str(), " -> ");
                    m.append(self.target_shown.as_str());
                    let name = target_file_name(self.stem.as_str(), self.to_ext.as_str());
                    self.phase = Phase::Done;
                    FileAction::Finish(
                        Completion {
                            outcome: Outcome::Converted,
                            message: m,
                            reason: name,
                            method: self.method.clone(),
                            remove_scratch: false,
                            remove_target: false,
                            delete_original: self.delete_originals,
                        },
                    )
                },
                _ => {
                    self.phase = Phase::Done;
                    FileAction::Finish(
                        Completion {
                            outcome: Outcome::Failed,
                            message: text2("Atomic rename failed for: ", self.target_shown.as_str()),
                            reason: String::from_str("rename failed (original safe)"),
                            method: String::new(),
                            remove_scratch: true,
                            remove_target: false,
                            delete_original: false,
                        },
                    )
                },
            },
            Phase::Done => {
                proof {
                    assert(false);
                }
                FileAction::ReadStem
            },
        }
    }
}

/// Target collision protection: a file whose target already exists is skipped;
/// nothing is written, removed or deleted for it.
pub proof fn law_existing_target_is_skipped(j: FileJob, e: FileEvent, nj: FileJob, a: FileAction)
    requires
        transition(j, e, nj, a),
        j.phase == Phase::AwaitTarget,
        e matches FileEvent::TargetChecked { exists, .. } && exists,
    ensures
        a matches FileAction::Finish(c) && c.outcome == Outcome::Skipped && !c.remove_scratch
            && !c.remove_target && !c.delete_original,
        nj.phase == Phase::Done,
{
}

/// The target is only ever known to be free after it was checked and found
/// absent; output is only written and renamed onto it in that case.
pub proof fn law_writes_only_over_free_target(j: FileJob, e: FileEvent, nj: FileJob, a: FileAction)
    requires
        j.wf(),
        nj.wf(),
        transition(j, e, nj, a),
    ensures
        nj.target_free && !j.target_free ==> j.phase == Phase::AwaitTarget && finds_target_absent(e),
        (a is Run || a is Rename || a is Prepare) ==> nj.target_free,
{
}

/// The output is renamed onto the target only right after the scratch file was
/// found present and non-empty.
pub proof fn law_rename_follows_verification(j: FileJob, e: FileEvent, nj: FileJob, a: FileAction)
    requires
        transition(j, e, nj, a),
        a is Rename,
    ensures
        j.phase == Phase::AwaitVerify,
        e matches FileEvent::ScratchChecked(valid) && valid,
        nj.phase == Phase::AwaitRename,
{
}

/// Original deletion safeguard: the original is deleted only when the caller
/// asked for it, and only once the verified output was renamed onto the target.
pub proof fn law_original_deleted_only_after_success(j: FileJob, e: FileEvent, nj: FileJob, a: FileAction)
    requires
        transition(j, e, nj, a),
        a matches FileAction::Finish(c) && c.delete_original,
    ensures
        j.delete_originals,
        j.phase == Phase::AwaitRename,
        e matches FileEvent::Renamed(ok) && ok,
        a matches FileAction::Finish(c) && c.outcome == Outcome::Converted,
{
}

/// Clean rollback: once ffmpeg may have written the scratch file, a failure
/// removes it.
pub proof fn law_failure_removes_scratch(j: FileJob, e: FileEvent, nj: FileJob, a: FileAction)
    requires
        transition(j, e, nj, a),
        converting(j.phase),
        j.phase != Phase::AwaitPrepared,
        a matches FileAction::Finish(c) && c.outcome == Outcome::Failed,
    ensures
        a matches FileAction::Finish(c) && c.remove_scratch && !c.delete_original,
{
}

/// Every file comes to an end: each answer either finishes the file, after
/// which no answer is expected, or moves it strictly closer to its end.
pub proof fn law_every_file_finishes(j: FileJob, e: FileEvent, nj: FileJob, a: FileAction)
    requires
        transition(j, e, nj, a),
    ensures
        a is Finish ==> nj.phase == Phase::Done && !expects(nj.phase, e),
        !(a is Finish) ==> rank(nj.phase) < rank(j.phase),
{
}

/// `e` reports an ffmpeg run that failed.
pub open spec fn run_failed(e: FileEvent) -> bool {
    match e {
        FileEvent::Ran { ok, .. } => !ok,
        _ => false,
    }
}

/// `e` reports the scratch file found usable (`valid`) or not.
pub open spec fn scratch_found(e: FileEvent, valid: bool) -> bool {
    match e {
        FileEvent::ScratchChecked(v) => v == valid,
        _ => false,
    }
}

/// `e` reports `b` as the hardware backend.
pub open spec fn backend_found(e: FileEvent, b: GpuBackend) -> bool {
    match e {
        FileEvent::Backend(x) => x == b,
        _ => false,
    }
}

/// `a` runs ffmpeg for `step`.
pub open spec fn runs_step(a: FileAction, step: Step) -> bool {
    match a {
        FileAction::Run { step: s, .. } => s == step,
        _ => false,
    }
}

/// The fallback chain of a video conversion: a failed fast remux and a failed
/// audio-transcoding remux each clear the scratch file and move on — the first
/// to the audio-transcoding remux, the second to a full encode on the detected
/// backend — and a remux output found unusable is cleared the same way.
pub proof fn law_remux_failures_fall_back(j: FileJob, e: FileEvent, nj: FileJob, a: FileAction)
    requires
        transition(j, e, nj, a),
        expects(j.phase, e),
    ensures
        j.phase == Phase::AwaitRun(Step::FastRemux) && run_failed(e) ==> a is ClearScratch && nj.phase
            == Phase::AwaitClear(Step::FastRemux),
        j.phase == Phase::AwaitRun(Step::RemuxAudioTranscode) && run_failed(e) ==> a is ClearScratch
            && nj.phase == Phase::AwaitClear(Step::RemuxAudioTranscode),
        forall|s: Step|
            j.phase == Phase::AwaitRemuxCheck(s) && #[trigger] scratch_found(e, false) ==> a is ClearScratch
                && nj.phase == Phase::AwaitClear(s),
        j.phase == Phase::AwaitClear(Step::FastRemux) ==> runs_step(a, Step::RemuxAudioTranscode)
            && nj.phase == Phase::AwaitRun(Step::RemuxAudioTranscode),
        j.phase == Phase::AwaitClear(Step::RemuxAudioTranscode) ==> a is DetectBackend && nj.phase
            == Phase::AwaitBackend,
        forall|b: GpuBackend|
            j.phase == Phase::AwaitBackend && #[trigger] backend_found(e, b) ==> runs_step(
                a,
                Step::Encode(b),
            ) && nj.phase == Phase::AwaitRun(Step::Encode(b)),
{
}

/// A video is never given up before its full encode was tried: from preparing
/// the scratch file to detecting the backend, no answer finishes the file
/// (failed or otherwise) for a job of a known category.
pub proof fn law_no_failure_before_encode(j: FileJob, e: FileEvent, nj: FileJob, a: FileAction)
    requires
        j.wf(),
        transition(j, e, nj, a),
        expects(j.phase, e),
        j.category != MediaCategory::Unknown,
        j.phase == Phase::AwaitPrepared || j.phase == Phase::AwaitRun(Step::FastRemux) || j.phase
            == Phase::AwaitRun(Step::RemuxAudioTranscode) || j.phase is AwaitRemuxCheck
            || j.phase is AwaitClear || j.phase == Phase::AwaitBackend,
    ensures
        !(a is Finish),
{
}

/// A remux whose output is found present and non-empty is kept: it goes on to
/// the final verification under the remux's own method name, and the method
/// reported for the converted file is that name.
pub proof fn law_valid_remux_is_kept(j: FileJob, e: FileEvent, nj: FileJob, a: FileAction)
    requires
        j.wf(),
        transition(j, e, nj, a),
        j.phase matches Phase::AwaitRemuxCheck(_),
        scratch_found(e, true),
    ensures
        a is CheckScratch,
        nj.phase == Phase::AwaitVerify,
        j.phase == Phase::AwaitRemuxCheck(Step::FastRemux) ==> nj.method@ == "fast remux"@,
        j.phase == Phase::AwaitRemuxCheck(Step::RemuxAudioTranscode) ==> nj.method@
            == "video remux (audio transcode)"@,
{
}

/// An output found valid is never thrown away: it is renamed onto the target,
/// and a successful rename reports the file converted with the method that
/// produced it.
pub proof fn law_valid_output_converts(j: FileJob, e: FileEvent, nj: FileJob, a: FileAction)
    requires
        transition(j, e, nj, a),
    ensures
        j.phase == Phase::AwaitVerify && scratch_found(e, true) ==> a is Rename && nj.method@
            == j.method@,
        j.phase == Phase::AwaitRename && e == FileEvent::Renamed(true) ==> (a matches FileAction::Finish(
            c,
        ) && c.outcome == Outcome::Converted && c.method@ == j.method@),
{
}

/// The hardware encoder in a full encode is the one the reported method names:
/// whenever the method is a GPU one, the codec word after `-c:v` is that GPU's
/// H.264 encoder, and for an mp4, mov or mkv target each GPU backend is used.
pub proof fn law_encoder_matches_method(b: GpuBackend, ext: Seq<char>)
    ensures
        ({
            let t = step_trailing(Step::Encode(b), ext);
            let m = step_method(Step::Encode(b), ext);
            &&& m == "Apple Silicon GPU (VideoToolbox)"@ ==> t[4] == "-c:v" && t[5]@ == "h264_videotoolbox"@
            &&& m == "NVIDIA NVENC GPU"@ ==> t[4] == "-c:v" && t[5]@ == "h264_nvenc"@
            &&& m == "Intel QuickSync GPU"@ ==> t[4] == "-c:v" && t[5]@ == "h264_qsv"@
            &&& ext == "webm"@ ==> t[5]@ == "libvpx-vp9"@ && m == "VP9 webm encode"@
        }),
        (ext == "mp4"@ || ext == "mov"@ || ext == "mkv"@) ==> ({
            let t = step_trailing(Step::Encode(b), ext);
            let m = step_method(Step::Encode(b), ext);
            &&& b == GpuBackend::AppleVideoToolbox ==> t[5]@ == "h264_videotoolbox"@ && m
                == "Apple Silicon GPU (VideoToolbox)"@
            &&& b == GpuBackend::NvidiaNvenc ==> t[5]@ == "h264_nvenc"@ && m == "NVIDIA NVENC GPU"@
            &&& b == GpuBackend::IntelQsv ==> t[5]@ == "h264_qsv"@ && m == "Intel QuickSync GPU"@
        }),
{
    reveal_strlit("Apple Silicon GPU (VideoToolbox)");
    reveal_strlit("NVIDIA NVENC GPU");
    reveal_strlit("Intel QuickSync GPU");
    reveal_strlit("VP9 webm encode");
    reveal_strlit("software fast encode");
    reveal_strlit("h264_videotoolbox");
    reveal_strlit("h264_nvenc");
    reveal_strlit("h264_qsv");
    reveal_strlit("webm");
    reveal_strlit("mp4");
    reveal_strlit("mov");
    reveal_strlit("mkv");
    assert("webm"@.len() == 4 && "mp4"@.len() == 3 && "mov"@.len() == 3 && "mkv"@.len() == 3);
    let c = encode_codec_words(b, ext);
    let t = step_trailing(Step::Encode(b), ext);
    assert(c.len() >= 2);
    assert(map_words().len() == 4);
    assert(t[4] == c[0] && t[5] == c[1]);
    let m = step_method(Step::Encode(b), ext);
    if !(hardware_container(ext) && b != GpuBackend::Cpu) {
        if ext == "webm"@ {
            assert(m == "VP9 webm encode"@);
            assert(c[1] == "libvpx-vp9");
        } else {
            assert(m == "software fast encode"@);
        }
        assert(m.len() == 15 || m.len() == 20);
    } else if b == GpuBackend::AppleVideoToolbox {
        assert(m == "Apple Silicon GPU (VideoToolbox)"@);
        assert(m.len() == 32);
        assert(c[1] == "h264_videotoolbox");
    } else if b == GpuBackend::NvidiaNvenc {
        assert(m == "NVIDIA NVENC GPU"@);
        assert(m.len() == 16);
        assert(c[1] == "h264_nvenc");
    } else {
        assert(m == "Intel QuickSync GPU"@);
        assert(m.len() == 19);
        assert(c[1] == "h264_qsv");
    }
}

/// The first ffmpeg run of a file: a gif target of a video is rendered with
/// the gif filter, any other video target starts with the fast remux, audio
/// is transcoded, images converted as a single frame and subtitles converted;
/// an unknown category fails before any run.
pub proof fn law_first_run(j: FileJob, e: FileEvent, nj: FileJob, a: FileAction)
    requires
        transition(j, e, nj, a),
        j.phase == Phase::AwaitPrepared,
    ensures
        j.category == MediaCategory::Video && j.to_ext@ == "gif"@ ==> runs_step(a, Step::GifRender),
        j.category == MediaCategory::Video && j.to_ext@ != "gif"@ ==> runs_step(a, Step::FastRemux),
        j.category == MediaCategory::Audio ==> runs_step(a, Step::AudioTranscode),
        j.category == MediaCategory::Image ==> runs_step(a, Step::ImageConversion),
        j.category == MediaCategory::Subtitle ==> runs_step(a, Step::SubtitleConversion),
        j.category == MediaCategory::Unknown ==> (a matches FileAction::Finish(c) && c.outcome
            == Outcome::Failed),
{
}

/// The end of a full encode: success goes on to verifying the output under the
/// method the encode reports; failure ends the file as failed and cleans up.
pub proof fn law_encode_settles(j: FileJob, e: FileEvent, nj: FileJob, a: FileAction, b: GpuBackend)
    requires
        transition(j, e, nj, a),
        j.phase == Phase::AwaitRun(Step::Encode(b)),
        e is Ran,
    ensures
        !run_failed(e) ==> a is CheckScratch && nj.phase == Phase::AwaitVerify && nj.method@
            == step_method(Step::Encode(b), j.to_ext@),
        run_failed(e) ==> (a matches FileAction::Finish(c) && c.outcome == Outcome::Failed
            && c.remove_scratch && !c.delete_original),
{
}

/// Inputs that cannot be converted are rejected before anything is written:
/// a path that is not a regular file, an unreadable or empty file and a file
/// without a stem each end the job as failed, with nothing to clean up and the
/// original kept.
pub proof fn law_bad_inputs_rejected(j: FileJob, e: FileEvent, nj: FileJob, a: FileAction)
    requires
        transition(j, e, nj, a),
        expects(j.phase, e),
        (j.phase == Phase::AwaitRegular && e == FileEvent::IsRegular(false)) || (j.phase
            == Phase::AwaitSize && (e == FileEvent::Size(Ok(0)) || e is Size && !(e->Size_0 is Ok)))
            || (j.phase == Phase::AwaitStem && e == FileEvent::Stem(None)),
    ensures
        a matches FileAction::Finish(c) && c.outcome == Outcome::Failed && !c.remove_scratch
            && !c.remove_target && !c.delete_original,
        nj.phase == Phase::Done,
{
}

/// A rename that fails keeps the original and drops the scratch file; the
/// file is reported failed.
pub proof fn law_failed_rename_keeps_original(j: FileJob, e: FileEvent, nj: FileJob, a: FileAction)
    requires
        transition(j, e, nj, a),
        j.phase == Phase::AwaitRename,
        e == FileEvent::Renamed(false),
    ensures
        a matches FileAction::Finish(c) && c.outcome == Outcome::Failed && c.remove_scratch
            && !c.remove_target && !c.delete_original,
{
}

} // verus!
