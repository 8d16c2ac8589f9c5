use std::io::Cursor;

use image_webp::WebPDecoder;
use vswebp::filter::{Activation, FilterConfig, FrameError, Outcome};
use vswebp::format::{ColorFamily, SampleType, VideoFormat};
use vswebp::pack::pack_rgb;

fn rgb24() -> VideoFormat {
    VideoFormat {
        bits_per_sample: 8,
        color_family: ColorFamily::Rgb,
        sample_type: SampleType::Integer,
    }
}

fn decode(encoded: &[u8]) -> (u32, u32, Vec<u8>) {
    let mut decoder = WebPDecoder::new(Cursor::new(encoded)).unwrap();
    let (width, height) = decoder.dimensions();
    let mut pixels = vec![0u8; decoder.output_buffer_size().unwrap()];
    decoder.read_image(&mut pixels).unwrap();
    (width, height, pixels)
}

#[test]
fn pack_interleaves_planes() {
    let packed = pack_rgb(&[10, 20], &[30, 40], &[50, 60], 2, 1);
    assert_eq!(packed, vec![10, 30, 50, 20, 40, 60]);
}

#[test]
fn pack_length_is_three_per_pixel() {
    let r = vec![7u8; 12];
    let g = vec![8u8; 12];
    let b = vec![9u8; 12];
    let packed = pack_rgb(&r, &g, &b, 4, 3);
    assert_eq!(packed.len(), 36);
}

#[test]
fn pack_empty_frame() {
    let packed = pack_rgb(&[], &[], &[], 0, 0);
    assert!(packed.is_empty());
}

#[test]
fn initial_phase_requests_same_index() {
    let config =
        FilterConfig::new(&rgb24(), Some(b"out/{n}.webp".to_vec()), None).unwrap();
    let outcome = config.activate::<u32>(41, Activation::Initial);
    assert!(matches!(outcome, Outcome::Request { index: 41 }));
}

#[test]
fn error_phase_does_no_work() {
    let config =
        FilterConfig::new(&rgb24(), Some(b"out/{n}.webp".to_vec()), None).unwrap();
    let outcome = config.activate::<u32>(3, Activation::Error);
    assert!(matches!(outcome, Outcome::NoFrame));
}

#[test]
fn ready_phase_end_to_end() {
    let config =
        FilterConfig::new(&rgb24(), Some(b"out/frame_{n}.webp".to_vec()), Some(1)).unwrap();
    let frame_handle = 7777u32;
    let outcome = config.activate(
        5,
        Activation::AllFramesReady {
            frame: frame_handle,
            width: 2,
            height: 1,
            red: &[10, 20],
            green: &[30, 40],
            blue: &[50, 60],
        },
    );
    match outcome {
        Outcome::Produce { frame, path, encoded, create_parents } => {
            assert_eq!(frame, frame_handle);
            assert_eq!(path, b"out/frame_5.webp".to_vec());
            assert!(create_parents);
            let (width, height, pixels) = decode(&encoded);
            assert_eq!((width, height), (2, 1));
            assert_eq!(pixels, vec![10, 30, 50, 20, 40, 60]);
        }
        other => panic!("expected a produced frame, got {:?}", describe(&other)),
    }
}

#[test]
fn ready_phase_round_trips_every_plane_byte() {
    let width = 3u32;
    let height = 2u32;
    let red: Vec<u8> = vec![0, 1, 2, 3, 4, 5];
    let green: Vec<u8> = vec![250, 251, 252, 253, 254, 255];
    let blue: Vec<u8> = vec![9, 8, 7, 6, 5, 4];
    let config = FilterConfig::new(&rgb24(), Some(b"{n}".to_vec()), None).unwrap();
    let outcome = config.activate(
        0,
        Activation::AllFramesReady {
            frame: 0u8,
            width,
            height,
            red: &red,
            green: &green,
            blue: &blue,
        },
    );
    match outcome {
        Outcome::Produce { encoded, .. } => {
            let (w, h, pixels) = decode(&encoded);
            assert_eq!((w, h), (width, height));
            for i in 0..(width * height) as usize {
                assert_eq!(pixels[3 * i], red[i]);
                assert_eq!(pixels[3 * i + 1], green[i]);
                assert_eq!(pixels[3 * i + 2], blue[i]);
            }
        }
        other => panic!("expected a produced frame, got {:?}", describe(&other)),
    }
}

#[test]
fn ready_phase_rejects_malformed_template() {
    let config =
        FilterConfig::new(&rgb24(), Some(b"out/frame_{m}.webp".to_vec()), None).unwrap();
    let outcome = config.activate(
        5,
        Activation::AllFramesReady {
            frame: 1u8,
            width: 1,
            height: 1,
            red: &[1],
            green: &[2],
            blue: &[3],
        },
    );
    assert!(matches!(outcome, Outcome::Fail { error: FrameError::InvalidTemplate }));
}

#[test]
fn ready_phase_rejects_zero_dimensions() {
    let config = FilterConfig::new(&rgb24(), Some(b"{n}".to_vec()), None).unwrap();
    let outcome = config.activate::<u8>(
        0,
        Activation::AllFramesReady {
            frame: 1u8,
            width: 0,
            height: 0,
            red: &[],
            green: &[],
            blue: &[],
        },
    );
    assert!(matches!(outcome, Outcome::Fail { error: FrameError::InvalidDimensions }));
}

fn describe<F>(outcome: &Outcome<F>) -> &'static str {
    match outcome {
        Outcome::Request { .. } => "a frame request",
        Outcome::Produce { .. } => "a produced frame",
        Outcome::Fail { .. } => "a failed activation",
        Outcome::NoFrame => "no frame",
    }
}
