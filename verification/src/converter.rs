//! Sizes, hardware backends and file-name handling of a conversion run.

use vstd::prelude::*;

use crate::formats::MediaCategory;
use crate::text::{
    chars_of, contains_str, contains_text, decimal, decimal_chars, digit_char, lowercase_of,
    push_char, push_chars, string_from_chars, to_lowercase,
};

verus! {

/// Unit of the value `b` takes as an IEEE double: 1 below 2^53, and above that
/// the power of two that leaves 53 significant bits.
pub open spec fn double_unit(b: nat) -> nat
    decreases b,
{
    if b < 0x20_0000_0000_0000 {
        1
    } else {
        2 * double_unit(b / 2)
    }
}

/// The double nearest to `b` (ties to even), which is what `b as f64` yields.
pub open spec fn nearest_double(b: nat) -> nat {
    let p = double_unit(b);
    let q = b / p;
    let r = b % p;
    if p == 1 {
        b
    } else if r > p / 2 || (r == p / 2 && q % 2 == 1) {
        (q + 1) * p
    } else {
        q * p
    }
}

/// `x / d` in tenths, rounded to the nearest tenth, ties to an even tenth.
pub open spec fn tenths(x: nat, d: nat) -> nat {
    let t = (x * 10) / d;
    let rem = (x * 10) % d;
    if 2 * rem > d || (2 * rem == d && t % 2 == 1) {
        t + 1
    } else {
        t
    }
}

/// A count of tenths written with one decimal: `12` is "1.2".
pub open spec fn one_decimal(t: nat) -> Seq<char> {
    decimal(t / 10) + seq!['.'] + seq![digit_char(t % 10)]
}

/// The human readable size: bytes below 1 KiB, otherwise KB, MB or GB
/// (binary units) with one decimal, as `{:.1}` prints the double quotient.
pub open spec fn size_text(bytes: nat) -> Seq<char> {
    if bytes >= 1_073_741_824 {
        one_decimal(tenths(nearest_double(bytes), 1_073_741_824)) + " GB"@
    } else if bytes >= 1_048_576 {
        one_decimal(tenths(nearest_double(bytes), 1_048_576)) + " MB"@
    } else if bytes >= 1024 {
        one_decimal(tenths(nearest_double(bytes), 1024)) + " KB"@
    } else {
        decimal(bytes) + " B"@
    }
}

proof fn lemma_halve(b: nat, p: nat)
    requires
        p > 0,
    ensures
        (b / p) / 2 == b / (p * 2),
{
    vstd::arithmetic::div_mod::lemma_div_denominator(b as int, p as int, 2);
}

fn nearest_double_exec(b: u64) -> (v: u128)
    ensures
        v == nearest_double(b as nat),
        v <= 0x2_0000_0000_0000_0000,
{
    let mut q: u128 = b as u128;
    let mut p: u128 = 1;
    while q >= 0x20_0000_0000_0000
        invariant
            p >= 1,
            p <= 0x1_0000_0000_0000_0000,
            q == (b as nat) / (p as nat),
            double_unit(b as nat) == p * double_unit(q as nat),
            q * p <= b,
            p == 1 || q >= 0x10_0000_0000_0000,
        decreases q,
    {
        proof {
            lemma_halve(b as nat, p as nat);
            assert(double_unit(q as nat) == 2 * double_unit((q / 2) as nat));
            assert(p * (2 * double_unit((q / 2) as nat)) == (p * 2) * double_unit((q / 2) as nat))
                by (nonlinear_arith);
            assert((q / 2) * (p * 2) <= q * p) by (nonlinear_arith);
            assert(q * p >= 0x20_0000_0000_0000 * p) by (nonlinear_arith)
                requires q >= 0x20_0000_0000_0000, p >= 1;
        }
        q = q / 2;
        p = p * 2;
    }
    assert(double_unit(q as nat) == 1);
    assert(double_unit(b as nat) == p) by (nonlinear_arith)
        requires double_unit(b as nat) == p * double_unit(q as nat), double_unit(q as nat) == 1;
    if p == 1 {
        assert((b as nat) / 1 == b);
        return b as u128;
    }
    proof {
        vstd::arithmetic::div_mod::lemma_fundamental_div_mod(b as int, p as int);
    }
    assert(q * p == p * q) by (nonlinear_arith);
    let r: u128 = (b as u128) - q * p;
    assert(r == (b as nat) % (p as nat));
    if r > p / 2 || (r == p / 2 && q % 2 == 1) {
        assert((q + 1) * p <= 0x2_0000_0000_0000_0000) by (nonlinear_arith)
            requires q >= 1, q * p <= b, b < 0x1_0000_0000_0000_0000, p >= 1;
        (q + 1) * p
    } else {
        q * p
    }
}

fn tenths_exec(x: u128, d: u128) -> (t: u128)
    requires
        d > 0,
        d <= 0x4000_0000,
        x <= 0x2_0000_0000_0000_0000,
    ensures
        t == tenths(x as nat, d as nat),
{
    let n = x * 10;
    let t = n / d;
    let rem = n % d;
    if 2 * rem > d || (2 * rem == d && t % 2 == 1) {
        assert(t <= n) by (nonlinear_arith) requires t == n / d, d > 0;
        t + 1
    } else {
        t
    }
}

fn push_one_decimal(s: &mut String, t: u128)
    ensures
        final(s)@ == old(s)@ + one_decimal(t as nat),
{
    let whole = decimal_chars(t / 10);
    push_chars(s, &whole);
    push_char(s, '.');
    let digits = decimal_chars(t % 10);
    assert(decimal((t % 10) as nat) == seq![digit_char((t % 10) as nat)]);
    push_chars(s, &digits);
    assert(s@ =~= old(s)@ + one_decimal(t as nat));
}

/// The size of `bytes` for display: "512 B", "1.5 KB", "3.2 MB", "1.0 GB".
pub fn format_size(bytes: u64) -> (r: String)
    ensures
        r@ == size_text(bytes as nat),
{
    let mut s = String::new();
    if bytes >= 1_073_741_824 {
        let v = nearest_double_exec(bytes);
        push_one_decimal(&mut s, tenths_exec(v, 1_073_741_824));
        s.append(" GB");
    } else if bytes >= 1_048_576 {
        let v = nearest_double_exec(bytes);
        push_one_decimal(&mut s, tenths_exec(v, 1_048_576));
        s.append(" MB");
    } else if bytes >= 1024 {
        let v = nearest_double_exec(bytes);
        push_one_decimal(&mut s, tenths_exec(v, 1024));
        s.append(" KB");
    } else {
        let d = decimal_chars(bytes as u128);
        push_chars(&mut s, &d);
        s.append(" B");
    }
    assert(s@ =~= size_text(bytes as nat));
    s
}

/// The hardware video encoder family found in the local ffmpeg build.
#[derive(Debug, Clone, Copy, PartialEq, Eq, Structural)]
pub enum GpuBackend {
    AppleVideoToolbox,
    NvidiaNvenc,
    IntelQsv,
    Cpu,
}

/// The name under which a backend is shown.
pub open spec fn backend_name(b: GpuBackend) -> Seq<char> {
    match b {
        GpuBackend::AppleVideoToolbox => "Apple Silicon VideoToolbox (GPU/ASIC)"@,
        GpuBackend::NvidiaNvenc => "NVIDIA NVENC (GPU)"@,
        GpuBackend::IntelQsv => "Intel QuickSync (GPU)"@,
        GpuBackend::Cpu => "Multi-Threaded CPU"@,
    }
}

impl GpuBackend {
    /// The backend's display name.
    pub fn name(&self) -> (r: &'static str)
        ensures
            r@ == backend_name(*self),
    {
        match self {
            GpuBackend::AppleVideoToolbox => "Apple Silicon VideoToolbox (GPU/ASIC)",
            GpuBackend::NvidiaNvenc => "NVIDIA NVENC (GPU)",
            GpuBackend::IntelQsv => "Intel QuickSync (GPU)",
            GpuBackend::Cpu => "Multi-Threaded CPU",
        }
    }
}

/// The backend an encoder listing (`ffmpeg -encoders`) reveals: the first of
/// VideoToolbox, NVENC and QuickSync whose H.264 encoder it names.
pub open spec fn backend_for_listing(listing: Seq<char>) -> GpuBackend {
    if contains_text(listing, "h264_videotoolbox"@) {
        GpuBackend::AppleVideoToolbox
    } else if contains_text(listing, "h264_nvenc"@) {
        GpuBackend::NvidiaNvenc
    } else if contains_text(listing, "h264_qsv"@) {
        GpuBackend::IntelQsv
    } else {
        GpuBackend::Cpu
    }
}

/// Picks the hardware backend from the text `ffmpeg -encoders` printed.
pub fn backend_from_encoders(listing: &str) -> (r: GpuBackend)
    ensures
        r == backend_for_listing(listing@),
{
    if contains_str(listing, "h264_videotoolbox") {
        GpuBackend::AppleVideoToolbox
    } else if contains_str(listing, "h264_nvenc") {
        GpuBackend::NvidiaNvenc
    } else if contains_str(listing, "h264_qsv") {
        GpuBackend::IntelQsv
    } else {
        GpuBackend::Cpu
    }
}

/// What a conversion run is asked to do.
pub struct ConversionConfig {
    pub to_ext: String,
    pub category: MediaCategory,
    pub delete_originals: bool,
    pub workers: usize,
}

/// `name` cut to its last characters behind "..." when longer than `max_len`:
/// the kept tail has `max_len - 3` characters (none when `max_len < 3`).
pub open spec fn shortened(name: Seq<char>, max_len: nat) -> Seq<char> {
    if name.len() > max_len {
        let keep: nat = if max_len >= 3 { (max_len - 3) as nat } else { 0 };
        "..."@ + name.subrange(name.len() - keep, name.len() as int)
    } else {
        name
    }
}

/// Shortens a file name for display.
pub fn truncate_filename(name: &str, max_len: usize) -> (r: String)
    ensures
        r@ == shortened(name@, max_len as nat),
{
    let cs = chars_of(name);
    if cs.len() > max_len {
        let keep: usize = if max_len >= 3 { max_len - 3 } else { 0 };
        let start = cs.len() - keep;
        let mut r = String::from_str("...");
        let mut i: usize = start;
        while i < cs.len()
            invariant
                cs@ == name@,
                start <= i <= cs@.len(),
                r@ == "..."@ + cs@.subrange(start as int, i as int),
            decreases cs@.len() - i,
        {
            push_char(&mut r, cs[i]);
            assert(cs@.subrange(start as int, i + 1) =~= cs@.subrange(start as int, i as int).push(
                cs@[i as int],
            ));
            i = i + 1;
        }
        r
    } else {
        string_from_chars(cs.as_slice())
    }
}

/// The name the converted file gets: `<stem>.<to_ext>`.
pub open spec fn target_name(stem: Seq<char>, to_ext: Seq<char>) -> Seq<char> {
    stem + "."@ + to_ext
}

/// The hidden scratch file written first: `.mconv_tmp_<stem>.<to_ext>`.
pub open spec fn scratch_name(stem: Seq<char>, to_ext: Seq<char>) -> Seq<char> {
    ".mconv_tmp_"@ + stem + "."@ + to_ext
}

/// The file name of the converted output.
pub fn target_file_name(stem: &str, to_ext: &str) -> (r: String)
    ensures
        r@ == target_name(stem@, to_ext@),
{
    let mut r = String::from_str(stem);
    r.append(".");
    r.append(to_ext);
    r
}

/// The file name of the scratch output.
pub fn scratch_file_name(stem: &str, to_ext: &str) -> (r: String)
    ensures
        r@ == scratch_name(stem@, to_ext@),
{
    let mut r = String::from_str(".mconv_tmp_");
    r.append(stem);
    r.append(".");
    r.append(to_ext);
    r
}

/// The reason shown for a failed conversion, given the last ffmpeg error and
/// its lowercase form: a full disk is named as such, a missing error gets a
/// generic text, any other error is shown as it is.
pub open spec fn failure_reason(error: Seq<char>, lower_error: Seq<char>) -> Seq<char> {
    if contains_text(lower_error, "no space left on device"@) {
        "DISK FULL: No space left on device"@
    } else if error.len() == 0 {
        "conversion failed (reverted to original)"@
    } else {
        error
    }
}

/// The failure reason from an error and its already computed lowercase form.
pub fn failure_text(error: &str, lower_error: &str) -> (r: String)
    ensures
        r@ == failure_reason(error@, lower_error@),
{
    if contains_str(lower_error, "no space left on device") {
        String::from_str("DISK FULL: No space left on device")
    } else if error.is_empty() {
        String::from_str("conversion failed (reverted to original)")
    } else {
        String::from_str(error)
    }
}

/// The failure reason shown for the last ffmpeg error.
pub fn failure_message(error: &str) -> (r: String)
    ensures
        r@ == failure_reason(error@, lowercase_of(error@)),
{
    let lower = to_lowercase(error);
    failure_text(error, lower.as_str())
}

/// A shortened name has exactly `max_len` characters when it was cut (at
/// least three, for the "..."), and ends with the end of the name.
pub proof fn law_shortened_name(name: Seq<char>, max_len: nat)
    ensures
        name.len() > max_len ==> shortened(name, max_len).len() == if max_len >= 3 {
            max_len
        } else {
            3
        },
        name.len() <= max_len ==> shortened(name, max_len) == name,
        forall|i: int| 3 <= i < shortened(name, max_len).len() && name.len() > max_len ==>
            #[trigger] shortened(name, max_len)[i] == name[name.len() - shortened(name, max_len).len() + i],
{
    reveal_strlit("...");
}

/// The scratch file never has the target's name, so writing it cannot touch
/// an existing target.
pub proof fn law_scratch_differs_from_target(stem: Seq<char>, to_ext: Seq<char>)
    ensures
        scratch_name(stem, to_ext) != target_name(stem, to_ext),
{
    reveal_strlit(".mconv_tmp_");
    reveal_strlit(".");
    assert(scratch_name(stem, to_ext).len() == target_name(stem, to_ext).len() + 11);
}

/// A failed file always gets a reason to show.
pub proof fn law_failure_reason_not_empty(error: Seq<char>, lower_error: Seq<char>)
    ensures
        failure_reason(error, lower_error).len() > 0,
{
    reveal_strlit("DISK FULL: No space left on device");
    reveal_strlit("conversion failed (reverted to original)");
}

/// Rounding to the nearest tenth is off by at most half a tenth: `t` tenths
/// of `d` lie within `d / 20` of `x`.
proof fn lemma_tenths_close(x: nat, d: nat)
    requires
        d > 0,
    ensures
        2 * (10 * x - tenths(x, d) * d) <= d,
        2 * (tenths(x, d) * d - 10 * x) <= d,
{
    let t0 = (x * 10) / d;
    let rem = (x * 10) % d;
    vstd::arithmetic::div_mod::lemma_fundamental_div_mod((x * 10) as int, d as int);
    vstd::arithmetic::div_mod::lemma_mod_bound((x * 10) as int, d as int);
    assert(x * 10 == d * t0 + rem);
    assert((t0 + 1) * d == t0 * d + d) by (nonlinear_arith);
    assert(d * t0 == t0 * d) by (nonlinear_arith);
}

/// A size is shown in the largest binary unit it reaches: whole bytes below
/// 1 KiB, then KB, MB and GB, each with one decimal that is the exact
/// quotient rounded to the nearest tenth (for sizes a double holds exactly,
/// below 2^53 bytes).
pub proof fn law_size_text(bytes: nat)
    ensures
        bytes < 1024 ==> size_text(bytes) == decimal(bytes) + " B"@,
        1024 <= bytes < 1_048_576 ==> exists|t: nat|
            size_text(bytes) == one_decimal(t) + " KB"@ && 2 * (10 * bytes - t * 1024) <= 1024
                && 2 * (t * 1024 - 10 * bytes) <= 1024,
        1_048_576 <= bytes < 1_073_741_824 ==> exists|t: nat|
            size_text(bytes) == one_decimal(t) + " MB"@ && 2 * (10 * bytes - t * 1_048_576)
                <= 1_048_576 && 2 * (t * 1_048_576 - 10 * bytes) <= 1_048_576,
        1_073_741_824 <= bytes < 0x20_0000_0000_0000 ==> exists|t: nat|
            size_text(bytes) == one_decimal(t) + " GB"@ && 2 * (10 * bytes - t * 1_073_741_824)
                <= 1_073_741_824 && 2 * (t * 1_073_741_824 - 10 * bytes) <= 1_073_741_824,
{
    if bytes < 0x20_0000_0000_0000 {
        assert(nearest_double(bytes) == bytes);
    }
    if 1024 <= bytes < 1_048_576 {
        lemma_tenths_close(bytes, 1024);
        let t = tenths(bytes, 1024);
        assert(size_text(bytes) == one_decimal(t) + " KB"@);
    } else if 1_048_576 <= bytes < 1_073_741_824 {
        lemma_tenths_close(bytes, 1_048_576);
        let t = tenths(bytes, 1_048_576);
        assert(size_text(bytes) == one_decimal(t) + " MB"@);
    } else if 1_073_741_824 <= bytes < 0x20_0000_0000_0000 {
        lemma_tenths_close(bytes, 1_073_741_824);
        let t = tenths(bytes, 1_073_741_824);
        assert(size_text(bytes) == one_decimal(t) + " GB"@);
    }
}

} // verus!
