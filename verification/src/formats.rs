//! Media categories, the extension tables, conversion targets and encoder settings.

use vstd::prelude::*;

use crate::text::{
    ascii_lower, ascii_upper, is_ascii_text, law_ascii_case, list_contains, lowercase_of,
    same_text, string_views, to_lowercase, to_owned_strings, views,
};

verus! {

/// The kind of media a file extension denotes.
#[derive(Debug, Clone, Copy, PartialEq, Eq, Structural)]
pub enum MediaCategory {
    Video,
    Audio,
    Image,
    Subtitle,
    Unknown,
}

/// The name under which a category is shown.
pub open spec fn category_label(c: MediaCategory) -> Seq<char> {
    match c {
        MediaCategory::Video => "video"@,
        MediaCategory::Audio => "audio"@,
        MediaCategory::Image => "image"@,
        MediaCategory::Subtitle => "subtitle"@,
        MediaCategory::Unknown => "unknown"@,
    }
}

impl MediaCategory {
    /// The category's name: "video", "audio", "image", "subtitle" or "unknown".
    pub fn to_string(&self) -> (r: String)
        ensures
            r@ == category_label(*self),
    {
        match self {
            MediaCategory::Video => String::from_str("video"),
            MediaCategory::Audio => String::from_str("audio"),
            MediaCategory::Image => String::from_str("image"),
            MediaCategory::Subtitle => String::from_str("subtitle"),
            MediaCategory::Unknown => String::from_str("unknown"),
        }
    }
}

/// Extensions read as video.
pub open spec fn video_exts() -> Seq<&'static str> {
    seq!["mp4", "mkv", "avi", "mov", "wmv", "flv", "webm", "mpg", "mpeg", "m4v", "ts", "3gp"]
}

/// Extensions read as audio.
pub open spec fn audio_exts() -> Seq<&'static str> {
    seq!["mp3", "wav", "flac", "aac", "ogg", "m4a", "wma", "opus", "aiff"]
}

/// Extensions read as images.
pub open spec fn image_exts() -> Seq<&'static str> {
    seq!["jpg", "jpeg", "png", "gif", "bmp", "webp", "tiff", "tif"]
}

/// Extensions read as subtitles.
pub open spec fn subtitle_exts() -> Seq<&'static str> {
    seq!["srt", "vtt", "ass", "ssa", "sub"]
}

/// The formats a video can be converted to, in the order they are offered.
pub open spec fn video_targets() -> Seq<&'static str> {
    seq!["mp4", "mkv", "webm", "avi", "mov", "flv", "gif"]
}

/// The formats an audio file can be converted to, in the order they are offered.
pub open spec fn audio_targets() -> Seq<&'static str> {
    seq!["mp3", "aac", "m4a", "flac", "wav", "ogg", "opus", "wma"]
}

/// The formats an image can be converted to, in the order they are offered.
pub open spec fn image_targets() -> Seq<&'static str> {
    seq!["png", "jpg", "webp", "bmp", "gif", "tiff"]
}

/// The formats a subtitle can be converted to, in the order they are offered.
pub open spec fn subtitle_targets() -> Seq<&'static str> {
    seq!["srt", "vtt", "ass"]
}

/// The category of an already lowercased extension: the first table that lists it.
pub open spec fn category_of(lower: Seq<char>) -> MediaCategory {
    if views(video_exts()).contains(lower) {
        MediaCategory::Video
    } else if views(audio_exts()).contains(lower) {
        MediaCategory::Audio
    } else if views(image_exts()).contains(lower) {
        MediaCategory::Image
    } else if views(subtitle_exts()).contains(lower) {
        MediaCategory::Subtitle
    } else {
        MediaCategory::Unknown
    }
}

/// The conversion targets of a category (none for `Unknown`).
pub open spec fn targets_of(c: MediaCategory) -> Seq<&'static str> {
    match c {
        MediaCategory::Video => video_targets(),
        MediaCategory::Audio => audio_targets(),
        MediaCategory::Image => image_targets(),
        MediaCategory::Subtitle => subtitle_targets(),
        MediaCategory::Unknown => Seq::empty(),
    }
}

/// `s` without the entries whose text is `x`, order kept.
pub open spec fn without(s: Seq<&'static str>, x: Seq<char>) -> Seq<&'static str>
    decreases s.len(),
{
    if s.len() == 0 {
        s
    } else if s.last()@ == x {
        without(s.drop_last(), x)
    } else {
        without(s.drop_last(), x).push(s.last())
    }
}

fn video_exts_list() -> (r: Vec<&'static str>)
    ensures
        r@ == video_exts(),
{
    vec!["mp4", "mkv", "avi", "mov", "wmv", "flv", "webm", "mpg", "mpeg", "m4v", "ts", "3gp"]
}

fn audio_exts_list() -> (r: Vec<&'static str>)
    ensures
        r@ == audio_exts(),
{
    vec!["mp3", "wav", "flac", "aac", "ogg", "m4a", "wma", "opus", "aiff"]
}

fn image_exts_list() -> (r: Vec<&'static str>)
    ensures
        r@ == image_exts(),
{
    vec!["jpg", "jpeg", "png", "gif", "bmp", "webp", "tiff", "tif"]
}

fn subtitle_exts_list() -> (r: Vec<&'static str>)
    ensures
        r@ == subtitle_exts(),
{
    vec!["srt", "vtt", "ass", "ssa", "sub"]
}

fn targets_list(c: MediaCategory) -> (r: Vec<&'static str>)
    ensures
        r@ == targets_of(c),
{
    match c {
        MediaCategory::Video => vec!["mp4", "mkv", "webm", "avi", "mov", "flv", "gif"],
        MediaCategory::Audio => vec!["mp3", "aac", "m4a", "flac", "wav", "ogg", "opus", "wma"],
        MediaCategory::Image => vec!["png", "jpg", "webp", "bmp", "gif", "tiff"],
        MediaCategory::Subtitle => vec!["srt", "vtt", "ass"],
        MediaCategory::Unknown => Vec::new(),
    }
}

/// The category of an extension that is already lowercase.
pub fn category_of_lowercase(lower: &str) -> (r: MediaCategory)
    ensures
        r == category_of(lower@),
{
    if list_contains(&video_exts_list(), lower) {
        MediaCategory::Video
    } else if list_contains(&audio_exts_list(), lower) {
        MediaCategory::Audio
    } else if list_contains(&image_exts_list(), lower) {
        MediaCategory::Image
    } else if list_contains(&subtitle_exts_list(), lower) {
        MediaCategory::Subtitle
    } else {
        MediaCategory::Unknown
    }
}

/// The category of a file extension, compared case-insensitively.
pub fn get_category(ext: &str) -> (r: MediaCategory)
    ensures
        r == category_of(lowercase_of(ext@)),
        is_ascii_text(ext@) ==> r == category_of(ascii_lower(ext@)),
{
    let lower = to_lowercase(ext);
    category_of_lowercase(lower.as_str())
}

/// For an ASCII extension the category ignores case: the extension in capitals,
/// and its lowercase form, have the category the extension has.
pub proof fn law_category_ignores_case(ext: Seq<char>)
    requires
        is_ascii_text(ext),
    ensures
        is_ascii_text(ascii_upper(ext)),
        is_ascii_text(ascii_lower(ext)),
        category_of(ascii_lower(ascii_upper(ext))) == category_of(ascii_lower(ext)),
        category_of(ascii_lower(ascii_lower(ext))) == category_of(ascii_lower(ext)),
{
    law_ascii_case(ext);
}

/// The targets of `category` other than the already lowercased source format.
pub fn targets_excluding(category: MediaCategory, lower_from: &str) -> (r: Vec<&'static str>)
    ensures
        r@ == without(targets_of(category), lower_from@),
{
    let all = targets_list(category);
    let mut r: Vec<&'static str> = Vec::new();
    let mut i: usize = 0;
    while i < all.len()
        invariant
            all@ == targets_of(category),
            i <= all@.len(),
            r@ == without(all@.subrange(0, i as int), lower_from@),
        decreases all@.len() - i,
    {
        assert(all@.subrange(0, i + 1).drop_last() =~= all@.subrange(0, i as int));
        if !same_text(all[i], lower_from) {
            r.push(all[i]);
        }
        i = i + 1;
    }
    assert(all@.subrange(0, all@.len() as int) =~= all@);
    r
}

/// The formats a file of `category` can be converted to, without its own format
/// (compared case-insensitively), in the order they are offered.
pub fn get_targets_for_category(category: MediaCategory, from_ext: &str) -> (r: Vec<&'static str>)
    ensures
        r@ == without(targets_of(category), lowercase_of(from_ext@)),
        is_ascii_text(from_ext@) ==> r@ == without(targets_of(category), ascii_lower(from_ext@)),
{
    let lower = to_lowercase(from_ext);
    targets_excluding(category, lower.as_str())
}

/// The encoder options used to produce a `to_ext` file of `category`.
pub open spec fn encode_words(category: MediaCategory, to_ext: Seq<char>) -> Seq<&'static str> {
    match category {
        MediaCategory::Video => if to_ext == "mp4"@ {
            seq!["-c:v", "libx264", "-crf", "22", "-preset", "fast", "-c:a", "aac", "-b:a", "192k", "-movflags", "+faststart"]
        } else if to_ext == "mkv"@ {
            seq!["-c:v", "libx264", "-crf", "22", "-preset", "fast", "-c:a", "aac", "-b:a", "192k"]
        } else if to_ext == "webm"@ {
            seq!["-c:v", "libvpx-vp9", "-crf", "32", "-b:v", "0", "-deadline", "realtime", "-cpu-used", "4", "-c:a", "libopus", "-b:a", "128k"]
        } else if to_ext == "avi"@ {
            seq!["-c:v", "mpeg4", "-qscale:v", "5", "-c:a", "libmp3lame", "-qscale:a", "4"]
        } else if to_ext == "mov"@ {
            seq!["-c:v", "libx264", "-crf", "22", "-preset", "fast", "-c:a", "aac", "-b:a", "192k"]
        } else if to_ext == "flv"@ {
            seq!["-c:v", "libx264", "-crf", "23", "-preset", "fast", "-c:a", "aac", "-b:a", "128k"]
        } else if to_ext == "gif"@ {
            seq!["-vf", "fps=10,scale=480:-1:flags=lanczos"]
        } else {
            seq!["-c:v", "libx264", "-c:a", "aac"]
        },
        MediaCategory::Audio => if to_ext == "mp3"@ {
            seq!["-c:a", "libmp3lame", "-q:a", "2"]
        } else if to_ext == "aac"@ || to_ext == "m4a"@ {
            seq!["-c:a", "aac", "-b:a", "192k"]
        } else if to_ext == "flac"@ {
            seq!["-c:a", "flac"]
        } else if to_ext == "wav"@ {
            seq!["-c:a", "pcm_s16le"]
        } else if to_ext == "ogg"@ {
            seq!["-c:a", "libvorbis", "-q:a", "5"]
        } else if to_ext == "opus"@ {
            seq!["-c:a", "libopus", "-b:a", "128k"]
        } else if to_ext == "wma"@ {
            seq!["-c:a", "wmav2", "-b:a", "192k"]
        } else {
            seq!["-c:a", "aac"]
        },
        MediaCategory::Image => if to_ext == "jpg"@ || to_ext == "jpeg"@ {
            seq!["-q:v", "2"]
        } else if to_ext == "webp"@ {
            seq!["-q:v", "80"]
        } else {
            Seq::empty()
        },
        MediaCategory::Subtitle => Seq::empty(),
        MediaCategory::Unknown => Seq::empty(),
    }
}

pub(crate) fn encode_word_list(category: MediaCategory, to_ext: &str) -> (r: Vec<&'static str>)
    ensures
        r@ == encode_words(category, to_ext@),
{
    match category {
        MediaCategory::Video => if same_text(to_ext, "mp4") {
            vec!["-c:v", "libx264", "-crf", "22", "-preset", "fast", "-c:a", "aac", "-b:a", "192k", "-movflags", "+faststart"]
        } else if same_text(to_ext, "mkv") {
            vec!["-c:v", "libx264", "-crf", "22", "-preset", "fast", "-c:a", "aac", "-b:a", "192k"]
        } else if same_text(to_ext, "webm") {
            vec!["-c:v", "libvpx-vp9", "-crf", "32", "-b:v", "0", "-deadline", "realtime", "-cpu-used", "4", "-c:a", "libopus", "-b:a", "128k"]
        } else if same_text(to_ext, "avi") {
            vec!["-c:v", "mpeg4", "-qscale:v", "5", "-c:a", "libmp3lame", "-qscale:a", "4"]
        } else if same_text(to_ext, "mov") {
            vec!["-c:v", "libx264", "-crf", "22", "-preset", "fast", "-c:a", "aac", "-b:a", "192k"]
        } else if same_text(to_ext, "flv") {
            vec!["-c:v", "libx264", "-crf", "23", "-preset", "fast", "-c:a", "aac", "-b:a", "128k"]
        } else if same_text(to_ext, "gif") {
            vec!["-vf", "fps=10,scale=480:-1:flags=lanczos"]
        } else {
            vec!["-c:v", "libx264", "-c:a", "aac"]
        },
        MediaCategory::Audio => if same_text(to_ext, "mp3") {
            vec!["-c:a", "libmp3lame", "-q:a", "2"]
        } else if same_text(to_ext, "aac") || same_text(to_ext, "m4a") {
            vec!["-c:a", "aac", "-b:a", "192k"]
        } else if same_text(to_ext, "flac") {
            vec!["-c:a", "flac"]
        } else if same_text(to_ext, "wav") {
            vec!["-c:a", "pcm_s16le"]
        } else if same_text(to_ext, "ogg") {
            vec!["-c:a", "libvorbis", "-q:a", "5"]
        } else if same_text(to_ext, "opus") {
            vec!["-c:a", "libopus", "-b:a", "128k"]
        } else if same_text(to_ext, "wma") {
            vec!["-c:a", "wmav2", "-b:a", "192k"]
        } else {
            vec!["-c:a", "aac"]
        },
        MediaCategory::Image => if same_text(to_ext, "jpg") || same_text(to_ext, "jpeg") {
            vec!["-q:v", "2"]
        } else if same_text(to_ext, "webp") {
            vec!["-q:v", "80"]
        } else {
            Vec::new()
        },
        MediaCategory::Subtitle => Vec::new(),
        MediaCategory::Unknown => Vec::new(),
    }
}

/// The encoder options ffmpeg is given to produce a `to_ext` file of `category`
/// (the extension is compared exactly, as written).
pub fn get_encode_args(category: MediaCategory, to_ext: &str) -> (r: Vec<String>)
    ensures
        string_views(r@) == views(encode_words(category, to_ext@)),
{
    let words = encode_word_list(category, to_ext);
    to_owned_strings(&words)
}

/// A format is never offered as its own target, and every offered target is
/// one of the category's targets, in the same order.
pub proof fn law_targets_exclude_source(s: Seq<&'static str>, x: Seq<char>)
    ensures
        !views(without(s, x)).contains(x),
        forall|i: int| 0 <= i < without(s, x).len() ==> s.contains(#[trigger] without(s, x)[i]),
        without(s, x).len() <= s.len(),
    decreases s.len(),
{
    if s.len() > 0 {
        law_targets_exclude_source(s.drop_last(), x);
        let w = without(s.drop_last(), x);
        assert forall|i: int| 0 <= i < without(s, x).len() implies s.contains(#[trigger] without(s, x)[i]) by {
            if i < w.len() {
                assert(s.drop_last().contains(w[i]));
                let k = choose|k: int| 0 <= k < s.drop_last().len() && s.drop_last()[k] == w[i];
                assert(s[k] == w[i]);
            } else {
                assert(s[s.len() - 1] == s.last());
            }
        }
        if s.last()@ != x {
            assert(views(without(s, x)) =~= views(w).push(s.last()@));
        }
    }
}

/// An audio target is written with the codec of its own format: `-c:a`
/// followed by libmp3lame for mp3, flac for flac, pcm_s16le for wav, libvorbis
/// for ogg, libopus for opus and wmav2 for wma; AAC is used for aac and m4a
/// and for no other target; the lossless formats (flac, wav) get no quality or
/// bitrate option, the lossy ones do.
pub proof fn law_audio_codec_matches_target(ext: Seq<char>)
    requires
        ext == "mp3"@ || ext == "aac"@ || ext == "m4a"@ || ext == "flac"@ || ext == "wav"@ || ext
            == "ogg"@ || ext == "opus"@ || ext == "wma"@,
    ensures
        ({
            let w = encode_words(MediaCategory::Audio, ext);
            &&& w.len() >= 2 && w[0]@ == "-c:a"@
            &&& (w[1]@ == "aac"@) == (ext == "aac"@ || ext == "m4a"@)
            &&& (w.len() == 2) == (ext == "flac"@ || ext == "wav"@)
            &&& ext == "mp3"@ ==> w[1]@ == "libmp3lame"@
            &&& ext == "flac"@ ==> w[1]@ == "flac"@
            &&& ext == "wav"@ ==> w[1]@ == "pcm_s16le"@
            &&& ext == "ogg"@ ==> w[1]@ == "libvorbis"@
            &&& ext == "opus"@ ==> w[1]@ == "libopus"@
            &&& ext == "wma"@ ==> w[1]@ == "wmav2"@
        }),
{
    reveal_strlit("mp3");
    reveal_strlit("aac");
    reveal_strlit("m4a");
    reveal_strlit("flac");
    reveal_strlit("wav");
    reveal_strlit("ogg");
    reveal_strlit("opus");
    reveal_strlit("wma");
    reveal_strlit("libmp3lame");
    reveal_strlit("pcm_s16le");
    reveal_strlit("libvorbis");
    reveal_strlit("libopus");
    reveal_strlit("wmav2");
    assert("mp3"@.len() == 3 && "mp3"@[0] == 'm' && "mp3"@[1] == 'p' && "mp3"@[2] == '3');
    assert("aac"@.len() == 3 && "aac"@[0] == 'a' && "aac"@[1] == 'a' && "aac"@[2] == 'c');
    assert("m4a"@.len() == 3 && "m4a"@[0] == 'm' && "m4a"@[1] == '4' && "m4a"@[2] == 'a');
    assert("flac"@.len() == 4 && "flac"@[0] == 'f' && "flac"@[1] == 'l' && "flac"@[2] == 'a');
    assert("wav"@.len() == 3 && "wav"@[0] == 'w' && "wav"@[1] == 'a' && "wav"@[2] == 'v');
    assert("ogg"@.len() == 3 && "ogg"@[0] == 'o' && "ogg"@[1] == 'g' && "ogg"@[2] == 'g');
    assert("opus"@.len() == 4 && "opus"@[0] == 'o' && "opus"@[1] == 'p' && "opus"@[2] == 'u');
    assert("wma"@.len() == 3 && "wma"@[0] == 'w' && "wma"@[1] == 'm' && "wma"@[2] == 'a');
    let w = encode_words(MediaCategory::Audio, ext);
    if ext == "mp3"@ {
        assert(w == seq!["-c:a", "libmp3lame", "-q:a", "2"]);
        assert(w[1]@ == "libmp3lame"@ && w.len() == 4);
    } else if ext == "aac"@ || ext == "m4a"@ {
        assert(w == seq!["-c:a", "aac", "-b:a", "192k"]);
        assert(w[1]@ == "aac"@ && w.len() == 4);
    } else if ext == "flac"@ {
        assert(w == seq!["-c:a", "flac"]);
        assert(w[1]@ == "flac"@ && w.len() == 2);
    } else if ext == "wav"@ {
        assert(w == seq!["-c:a", "pcm_s16le"]);
        assert(w[1]@ == "pcm_s16le"@ && w.len() == 2);
    } else if ext == "ogg"@ {
        assert(w == seq!["-c:a", "libvorbis", "-q:a", "5"]);
        assert(w[1]@ == "libvorbis"@ && w.len() == 4);
    } else if ext == "opus"@ {
        assert(w == seq!["-c:a", "libopus", "-b:a", "128k"]);
        assert(w[1]@ == "libopus"@ && w.len() == 4);
    } else {
        assert(w == seq!["-c:a", "wmav2", "-b:a", "192k"]);
        assert(w[1]@ == "wmav2"@ && w.len() == 4);
    }
}

/// A video target is encoded for its own container: H.264 (libx264) for mp4,
/// mkv, mov and flv, VP9 with Opus audio for webm, MPEG-4 with MP3 audio for
/// avi, and a scaled 10 fps filter for gif; only mp4 moves its index to the
/// front.
pub proof fn law_video_codec_matches_target(ext: Seq<char>)
    requires
        ext == "mp4"@ || ext == "mkv"@ || ext == "webm"@ || ext == "avi"@ || ext == "mov"@ || ext
            == "flv"@ || ext == "gif"@,
    ensures
        ({
            let w = encode_words(MediaCategory::Video, ext);
            &&& ext != "gif"@ ==> w[0]@ == "-c:v"@
            &&& (ext == "mp4"@ || ext == "mkv"@ || ext == "mov"@ || ext == "flv"@) ==> w[1]@ == "libx264"@
            &&& ext == "webm"@ ==> w[1]@ == "libvpx-vp9"@ && w[w.len() - 3]@ == "libopus"@
            &&& ext == "avi"@ ==> w[1]@ == "mpeg4"@ && w[5]@ == "libmp3lame"@
            &&& ext == "gif"@ ==> w == seq!["-vf", "fps=10,scale=480:-1:flags=lanczos"]
            &&& (w.last() == "+faststart") == (ext == "mp4"@)
        }),
{
    reveal_strlit("mp4");
    reveal_strlit("mkv");
    reveal_strlit("webm");
    reveal_strlit("avi");
    reveal_strlit("mov");
    reveal_strlit("flv");
    reveal_strlit("gif");
    reveal_strlit("+faststart");
    reveal_strlit("192k");
    reveal_strlit("128k");
    reveal_strlit("4");
    reveal_strlit("fps=10,scale=480:-1:flags=lanczos");
    assert("mp4"@.len() == 3 && "mp4"@[0] == 'm' && "mp4"@[1] == 'p' && "mp4"@[2] == '4');
    assert("mkv"@.len() == 3 && "mkv"@[0] == 'm' && "mkv"@[1] == 'k' && "mkv"@[2] == 'v');
    assert("webm"@.len() == 4 && "webm"@[0] == 'w' && "webm"@[1] == 'e' && "webm"@[2] == 'b');
    assert("avi"@.len() == 3 && "avi"@[0] == 'a' && "avi"@[1] == 'v' && "avi"@[2] == 'i');
    assert("mov"@.len() == 3 && "mov"@[0] == 'm' && "mov"@[1] == 'o' && "mov"@[2] == 'v');
    assert("flv"@.len() == 3 && "flv"@[0] == 'f' && "flv"@[1] == 'l' && "flv"@[2] == 'v');
    assert("gif"@.len() == 3 && "gif"@[0] == 'g' && "gif"@[1] == 'i' && "gif"@[2] == 'f');
    let w = encode_words(MediaCategory::Video, ext);
    if ext == "mp4"@ {
        assert(w.len() == 12 && w.last() == "+faststart");
    } else if ext == "mkv"@ {
        assert(w.len() == 10 && w.last() == "192k");
    } else if ext == "mov"@ {
        assert(w == seq!["-c:v", "libx264", "-crf", "22", "-preset", "fast", "-c:a", "aac", "-b:a", "192k"]);
        assert(w.len() == 10 && w.last() == "192k");
    } else if ext == "flv"@ {
        assert(w.len() == 10 && w.last() == "128k");
    } else if ext == "webm"@ {
        assert(w.len() == 14 && w.last() == "128k");
        assert(w[1]@ == "libvpx-vp9"@ && w[11]@ == "libopus"@);
    } else if ext == "avi"@ {
        assert(w.len() == 8 && w.last() == "4");
        assert(w[1]@ == "mpeg4"@ && w[5]@ == "libmp3lame"@);
    } else {
        assert(w.len() == 2 && w.last() == "fps=10,scale=480:-1:flags=lanczos");
    }
}

} // verus!
