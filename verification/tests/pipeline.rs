use capture_serial_core::encode::encode_frame;
use capture_serial_core::errors::{EncodeError, ResizeError};
use capture_serial_core::frame::{to_rgb, RawFrame, MAX_FRAME_HEIGHT};
use capture_serial_core::greet;
use capture_serial_core::jpeg::{encode_jpeg, JPEG_QUALITY};
use capture_serial_core::resample::resize_if_needed;

fn solid_frame(width: u32, height: u32, rgba: [u8; 4]) -> RawFrame {
    let mut pixels = Vec::new();
    for _ in 0..(width as usize * height as usize) {
        pixels.extend_from_slice(&rgba);
    }
    RawFrame::new(width, height, pixels).expect("buffer length matches dimensions")
}

#[test]
fn greet_mentions_the_name() {
    assert_eq!(greet("Verus"), "Hello, Verus! You've been greeted from Rust!");
}

#[test]
fn to_rgb_drops_alpha_bytes() {
    let pixels = vec![10, 20, 30, 40, 50, 60, 70, 80];
    let frame = RawFrame::new(2, 1, pixels).unwrap();
    assert_eq!(to_rgb(&frame), vec![10, 20, 30, 50, 60, 70]);
}

#[test]
fn to_rgb_length_is_three_per_pixel() {
    let frame = solid_frame(4, 4, [255, 0, 0, 255]);
    assert_eq!(to_rgb(&frame).len(), 4 * 4 * 3);
}

#[test]
fn raw_frame_rejects_wrong_buffer_length() {
    assert!(RawFrame::new(2, 2, vec![0u8; 15]).is_none());
    assert!(RawFrame::new(2, 2, vec![0u8; 16]).is_some());
}

#[test]
fn resize_below_cap_is_identity() {
    let frame = solid_frame(7, 5, [1, 2, 3, 4]);
    let before = frame.pixels.clone();
    let out = resize_if_needed(frame, MAX_FRAME_HEIGHT).unwrap();
    assert_eq!(out.width, 7);
    assert_eq!(out.height, 5);
    assert_eq!(out.pixels, before);
}

#[test]
fn resize_at_cap_is_identity() {
    let frame = solid_frame(2, 1080, [9, 9, 9, 255]);
    let out = resize_if_needed(frame, MAX_FRAME_HEIGHT).unwrap();
    assert_eq!((out.width, out.height), (2, 1080));
}

#[test]
fn resize_caps_height_and_scales_width() {
    let frame = solid_frame(16, 2160, [10, 20, 30, 255]);
    let out = resize_if_needed(frame, MAX_FRAME_HEIGHT).unwrap();
    assert_eq!(out.height, 1080);
    assert_eq!(out.width, 8);
    assert_eq!(out.pixels.len(), 8 * 1080 * 4);
    for chunk in out.pixels.chunks_exact(4) {
        assert_eq!(chunk, &[10, 20, 30, 255]);
    }
}

#[test]
fn resize_width_is_rounded_ratio() {
    // round(1080 * 1919 / 2161) = 959
    let frame = solid_frame(1919, 2161, [0, 0, 0, 255]);
    let out = resize_if_needed(frame, MAX_FRAME_HEIGHT).unwrap();
    assert_eq!((out.width, out.height), (959, 1080));
}

#[test]
fn resize_rejects_zero_width_when_downscaling() {
    let frame = RawFrame::new(0, 2000, Vec::new()).unwrap();
    let out = resize_if_needed(frame, MAX_FRAME_HEIGHT);
    assert!(matches!(out, Err(ResizeError::InvalidDimensions)));
}

#[test]
fn encode_jpeg_rejects_mismatched_buffer() {
    let rgb = vec![0u8; 10];
    let out = encode_jpeg(&rgb, 2, 2, JPEG_QUALITY);
    assert!(matches!(out, Err(EncodeError::DimensionMismatch)));
}

#[test]
fn encode_jpeg_rejects_zero_dimensions() {
    let rgb: Vec<u8> = Vec::new();
    let out = encode_jpeg(&rgb, 0, 4, JPEG_QUALITY);
    assert!(matches!(out, Err(EncodeError::EncoderFailure(_))));
}

#[test]
fn jpeg_round_trip_keeps_solid_color() {
    let frame = solid_frame(4, 4, [255, 0, 0, 255]);
    let rgb = to_rgb(&frame);
    let jpeg = encode_jpeg(&rgb, 4, 4, JPEG_QUALITY).unwrap();

    let mut decoder = jpeg_decoder::Decoder::new(jpeg.as_slice());
    let decoded = decoder.decode().expect("the stream decodes");
    let info = decoder.info().unwrap();
    assert_eq!((info.width, info.height), (4, 4));
    assert_eq!(decoded.len(), 4 * 4 * 3);

    let mut sums = [0u32; 3];
    for px in decoded.chunks_exact(3) {
        for c in 0..3 {
            sums[c] += px[c] as u32;
        }
    }
    let avg: Vec<i32> = sums.iter().map(|s| (s / 16) as i32).collect();
    assert!((avg[0] - 255).abs() <= 10, "red average {} is off", avg[0]);
    assert!(avg[1] <= 10, "green average {} is off", avg[1]);
    assert!(avg[2] <= 10, "blue average {} is off", avg[2]);
}

#[test]
fn encode_frame_wraps_base64_jpeg_as_data_uri() {
    let frame = solid_frame(4, 4, [255, 0, 0, 255]);
    let rgb = to_rgb(&frame);
    let jpeg = encode_jpeg(&rgb, 4, 4, JPEG_QUALITY).unwrap();

    let frame2 = solid_frame(4, 4, [255, 0, 0, 255]);
    let capture = encode_frame(frame2).unwrap();
    assert_eq!((capture.width, capture.height), (4, 4));
    let prefix = "data:image/jpeg;base64,";
    assert!(capture.data.starts_with(prefix));
    let payload = &capture.data[prefix.len()..];
    let decoded = base64_simd::STANDARD
        .decode_to_vec(payload.as_bytes())
        .expect("the payload is canonical base64");
    assert_eq!(decoded, jpeg);
}

#[test]
fn encode_frame_keeps_height_at_or_below_cap() {
    let frame = solid_frame(8, 1200, [0, 128, 255, 255]);
    let capture = encode_frame(frame).unwrap();
    assert_eq!(capture.height, 1080);
    assert_eq!(capture.width, 7); // round(1080 * 8 / 1200)
}
