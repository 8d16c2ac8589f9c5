use vswebp::filter::{FilterConfig, SetupError};
use vswebp::format::{ColorFamily, SampleType, VideoFormat};

fn rgb24() -> VideoFormat {
    VideoFormat {
        bits_per_sample: 8,
        color_family: ColorFamily::Rgb,
        sample_type: SampleType::Integer,
    }
}

#[test]
fn setup_accepts_rgb24() {
    let config =
        FilterConfig::new(&rgb24(), Some(b"out/{n}.webp".to_vec()), Some(1)).unwrap();
    assert_eq!(config.path_template, b"out/{n}.webp".to_vec());
    assert!(config.parents);
}

#[test]
fn setup_rejects_16_bit() {
    let format = VideoFormat { bits_per_sample: 16, ..rgb24() };
    let result = FilterConfig::new(&format, Some(b"out/{n}.webp".to_vec()), Some(1));
    assert!(matches!(result, Err(SetupError::UnsupportedFormat)));
}

#[test]
fn setup_rejects_yuv() {
    let format = VideoFormat { color_family: ColorFamily::Yuv, ..rgb24() };
    let result = FilterConfig::new(&format, Some(b"out/{n}.webp".to_vec()), None);
    assert!(matches!(result, Err(SetupError::UnsupportedFormat)));
}

#[test]
fn setup_rejects_gray() {
    let format = VideoFormat { color_family: ColorFamily::Gray, ..rgb24() };
    let result = FilterConfig::new(&format, Some(b"out/{n}.webp".to_vec()), None);
    assert!(matches!(result, Err(SetupError::UnsupportedFormat)));
}

#[test]
fn setup_rejects_float_samples() {
    let format = VideoFormat { sample_type: SampleType::Float, ..rgb24() };
    let result = FilterConfig::new(&format, Some(b"out/{n}.webp".to_vec()), None);
    assert!(matches!(result, Err(SetupError::UnsupportedFormat)));
}

#[test]
fn setup_rejects_missing_path() {
    let result = FilterConfig::new(&rgb24(), None, Some(1));
    assert!(matches!(result, Err(SetupError::MissingPath)));
}

#[test]
fn setup_format_error_comes_before_missing_path() {
    let format = VideoFormat { bits_per_sample: 10, ..rgb24() };
    let result = FilterConfig::new(&format, None, None);
    assert!(matches!(result, Err(SetupError::UnsupportedFormat)));
}

#[test]
fn setup_parents_flag_defaults_to_off() {
    let config = FilterConfig::new(&rgb24(), Some(b"a".to_vec()), None).unwrap();
    assert!(!config.parents);
}

#[test]
fn setup_parents_flag_zero_is_off() {
    let config = FilterConfig::new(&rgb24(), Some(b"a".to_vec()), Some(0)).unwrap();
    assert!(!config.parents);
}

#[test]
fn setup_parents_flag_any_nonzero_is_on() {
    let one = FilterConfig::new(&rgb24(), Some(b"a".to_vec()), Some(1)).unwrap();
    let other = FilterConfig::new(&rgb24(), Some(b"a".to_vec()), Some(-7)).unwrap();
    assert!(one.parents);
    assert!(other.parents);
}
