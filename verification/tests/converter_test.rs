use mconv::converter::{
    backend_from_encoders, failure_message, failure_text, format_size, scratch_file_name,
    target_file_name, truncate_filename, ConversionConfig, GpuBackend,
};
use mconv::formats::MediaCategory;

fn float_size(bytes: u64) -> String {
    if bytes >= 1_073_741_824 {
        format!("{:.1} GB", bytes as f64 / 1_073_741_824.0)
    } else if bytes >= 1_048_576 {
        format!("{:.1} MB", bytes as f64 / 1_048_576.0)
    } else if bytes >= 1024 {
        format!("{:.1} KB", bytes as f64 / 1024.0)
    } else {
        format!("{} B", bytes)
    }
}

#[test]
fn size_exact_values() {
    assert_eq!(format_size(0), "0 B");
    assert_eq!(format_size(1023), "1023 B");
    assert_eq!(format_size(1024), "1.0 KB");
    assert_eq!(format_size(1536), "1.5 KB");
    assert_eq!(format_size(1_048_576), "1.0 MB");
    assert_eq!(format_size(1_073_741_824), "1.0 GB");
    assert_eq!(format_size(5 * 1_073_741_824 + 536_870_912), "5.5 GB");
    assert_eq!(format_size(u64::MAX), "17179869184.0 GB");
}

#[test]
fn size_ties_round_to_even_tenths() {
    // 1.25 KB and 1.75 KB are exact halves of a tenth.
    assert_eq!(format_size(1280), "1.2 KB");
    assert_eq!(format_size(1792), "1.8 KB");
    assert_eq!(format_size(1_310_720), "1.2 MB");
}

#[test]
fn size_agrees_with_float_formatting() {
    let mut samples: Vec<u64> = vec![0, 1, 1023, 1024, 1025, 1280, 1792, 10239, 10240, 1_048_575,
        1_048_576, 1_073_741_823, 1_073_741_824, u64::MAX, u64::MAX - 1, 1 << 53, (1 << 53) + 1,
        (1 << 54) + 3, (1 << 60) + 12345, 9_007_199_254_740_993];
    let mut x: u64 = 0x9E37_79B9_7F4A_7C15;
    for _ in 0..20000 {
        x ^= x << 13;
        x ^= x >> 7;
        x ^= x << 17;
        samples.push(x >> (x % 64));
        samples.push(x % 4_000_000);
    }
    for k in 10..64 {
        let base: u64 = 1 << k;
        samples.push(base + (base >> 1));
        samples.push(base - 1);
        samples.push(base + 1);
    }
    for b in samples {
        assert_eq!(format_size(b), float_size(b), "bytes = {}", b);
    }
}

#[test]
fn backend_names() {
    assert_eq!(GpuBackend::AppleVideoToolbox.name(), "Apple Silicon VideoToolbox (GPU/ASIC)");
    assert_eq!(GpuBackend::NvidiaNvenc.name(), "NVIDIA NVENC (GPU)");
    assert_eq!(GpuBackend::IntelQsv.name(), "Intel QuickSync (GPU)");
    assert_eq!(GpuBackend::Cpu.name(), "Multi-Threaded CPU");
}

#[test]
fn backend_from_encoder_listing() {
    assert_eq!(backend_from_encoders(" V..... h264_videotoolbox VideoToolbox H.264"), GpuBackend::AppleVideoToolbox);
    assert_eq!(backend_from_encoders(" V..... h264_nvenc NVIDIA\n V..... h264_qsv QSV"), GpuBackend::NvidiaNvenc);
    assert_eq!(backend_from_encoders(" V..... h264_qsv H.264 QSV"), GpuBackend::IntelQsv);
    assert_eq!(backend_from_encoders(" V..... libx264 H.264"), GpuBackend::Cpu);
    assert_eq!(backend_from_encoders(""), GpuBackend::Cpu);
    assert_eq!(
        backend_from_encoders("h264_qsv h264_nvenc h264_videotoolbox"),
        GpuBackend::AppleVideoToolbox
    );
}

#[test]
fn file_names_are_shortened_from_the_front() {
    assert_eq!(truncate_filename("short.mp4", 35), "short.mp4");
    let long = "a_very_long_file_name_that_goes_on_and_on.mkv";
    let t = truncate_filename(long, 35);
    assert_eq!(t.chars().count(), 35);
    assert!(t.starts_with("..."));
    assert!(long.ends_with(&t[3..]));
    assert_eq!(truncate_filename("abcdef", 5), "...ef");
    assert_eq!(truncate_filename("abcdef", 6), "abcdef");
    assert_eq!(truncate_filename("abcdef", 2), "...");
    assert_eq!(truncate_filename("ñandú_ñandú.mp3", 8), "...ú.mp3");
}

#[test]
fn target_and_scratch_names() {
    assert_eq!(target_file_name("clip", "mp4"), "clip.mp4");
    assert_eq!(scratch_file_name("clip", "mp4"), ".mconv_tmp_clip.mp4");
    assert_ne!(target_file_name("a", "b"), scratch_file_name("a", "b"));
}

#[test]
fn failure_reasons() {
    assert_eq!(
        failure_message("av_interleaved_write_frame(): No space left on device"),
        "DISK FULL: No space left on device"
    );
    assert_eq!(failure_message("NO SPACE LEFT ON DEVICE"), "DISK FULL: No space left on device");
    assert_eq!(failure_message(""), "conversion failed (reverted to original)");
    assert_eq!(failure_message("Invalid data found"), "Invalid data found");
    assert_eq!(failure_text("x", "no space left on device"), "DISK FULL: No space left on device");
}

#[test]
fn conversion_config_holds_the_request() {
    let c = ConversionConfig {
        to_ext: "mp3".to_string(),
        category: MediaCategory::Audio,
        delete_originals: false,
        workers: 2,
    };
    assert_eq!(c.to_ext, "mp3");
    assert_eq!(c.category, MediaCategory::Audio);
    assert!(!c.delete_originals);
    assert_eq!(c.workers, 2);
}
