use cam_stream::capture::{
    capture_loop, next_number, CaptureAction, CaptureEvent, FrameSource, PublishStep, JPEG_QUALITY,
};
use cam_stream::clock::{elapsed, millis_since, unix_millis};
use cam_stream::frame::{bgra_to_rgb, check_sample, encode_rgb32_to_jpeg, EncodeError, JpegFrame};
use cam_stream::native_format::ChosenFormat;

fn format_of(width: u32, height: u32, is_mjpg: bool) -> ChosenFormat {
    ChosenFormat { width, height, is_mjpg }
}

#[test]
fn frame_carries_its_image() {
    let frame = JpegFrame::new(vec![0xFF, 0xD8, 3, 4], 9);
    assert_eq!(frame.seq, 9);
    assert_eq!(frame.message(), vec![0xFF, 0xD8, 3, 4]);
    assert_eq!(&frame.bytes[..], &[0xFF, 0xD8, 3, 4]);
    let copy = frame.clone();
    assert_eq!(copy.seq, 9);
    assert_eq!(copy.message(), frame.message());
    assert!(JpegFrame::new(vec![], 0).message().is_empty());
}

#[test]
fn channels_are_reordered() {
    assert_eq!(bgra_to_rgb(&[1, 2, 3, 4, 5, 6, 7, 8]), vec![3, 2, 1, 7, 6, 5]);
    // Bytes after the last whole pixel are left out.
    assert_eq!(bgra_to_rgb(&[1, 2, 3, 4, 5, 6, 7]), vec![3, 2, 1]);
    assert!(bgra_to_rgb(&[]).is_empty());
}

#[test]
fn unused_byte_changes_nothing() {
    let a = encode_rgb32_to_jpeg(&[1, 2, 3, 0, 9, 8, 7, 0], 2, 1, 80).unwrap();
    let b = encode_rgb32_to_jpeg(&[1, 2, 3, 255, 9, 8, 7, 77], 2, 1, 80).unwrap();
    assert_eq!(a, b);
}

#[test]
fn rgb32_becomes_a_jpeg_of_the_same_picture() {
    let mut sample = Vec::new();
    for _ in 0..16 * 8 {
        sample.extend_from_slice(&[10, 20, 230, 0]);
    }
    let jpeg = encode_rgb32_to_jpeg(&sample, 16, 8, 80).unwrap();
    assert_eq!(&jpeg[..2], &[0xFF, 0xD8]);
    assert_eq!(&jpeg[jpeg.len() - 2..], &[0xFF, 0xD9]);
    let picture = image::load_from_memory(&jpeg).unwrap().to_rgb8();
    assert_eq!((picture.width(), picture.height()), (16, 8));
    let px = picture.get_pixel(7, 3).0;
    assert!(px[0] > 210 && px[1] < 40 && px[2] < 40, "{:?}", px);
}

#[test]
fn quality_changes_the_image() {
    let mut sample = Vec::new();
    for i in 0..64u8 {
        sample.extend_from_slice(&[i.wrapping_mul(7), i.wrapping_mul(13), i.wrapping_mul(29), 0]);
    }
    let fine = encode_rgb32_to_jpeg(&sample, 8, 8, 95).unwrap();
    let coarse = encode_rgb32_to_jpeg(&sample, 8, 8, 10).unwrap();
    assert!(fine.len() > coarse.len());
}

#[test]
fn sizes_without_a_jpeg_are_refused() {
    assert_eq!(
        encode_rgb32_to_jpeg(&[], 0, 0, 80),
        Err(EncodeError::InvalidSize { width: 0, height: 0 })
    );
    let row = vec![0u8; 65536 * 4];
    assert_eq!(
        encode_rgb32_to_jpeg(&row, 65536, 1, 80),
        Err(EncodeError::InvalidSize { width: 65536, height: 1 })
    );
    assert!(encode_rgb32_to_jpeg(&row[..65535 * 4], 65535, 1, 80).is_ok());
}

#[test]
fn samples_are_measured() {
    assert!(check_sample(16, 2, 2));
    assert!(check_sample(19, 2, 2));
    assert!(!check_sample(15, 2, 2));
    assert!(!check_sample(20, 2, 2));
    assert!(!check_sample(0, u32::MAX, u32::MAX));
    assert!(check_sample(0, 0, 5));
}

#[test]
fn mjpg_samples_pass_through() {
    let mut source = FrameSource::new(format_of(1280, 720, true));
    assert!(source.accepts(5));
    let image = source.image(&[9, 8, 7, 6, 5]).unwrap();
    let out = source.publish(image, Some(1_700_000_000_123));
    assert_eq!(out.frame.message(), vec![9, 8, 7, 6, 5]);
    assert_eq!(out.last_frame_time, 1_700_000_000_123);
}

#[test]
fn rgb32_samples_are_encoded() {
    let source = FrameSource::new(format_of(2, 1, false));
    assert!(source.accepts(8));
    assert!(!source.accepts(12));
    let sample = [10, 20, 30, 0, 40, 50, 60, 0];
    let image = source.image(&sample).unwrap();
    assert_eq!(image, encode_rgb32_to_jpeg(&sample, 2, 1, JPEG_QUALITY).unwrap());
    assert_eq!(
        FrameSource::new(format_of(0, 7, false)).image(&[]),
        Err(EncodeError::InvalidSize { width: 0, height: 7 })
    );
}

#[test]
fn frames_are_numbered() {
    let mut source = FrameSource::new(format_of(1, 1, true));
    for i in 0..5u64 {
        assert_eq!(source.publish(vec![i as u8], None).frame.seq, i);
    }
    assert_eq!(source.state().next_seq, 5);
    assert_eq!(next_number(41), 42);
    assert_eq!(next_number(u64::MAX - 1), u64::MAX);
    assert_eq!(next_number(u64::MAX), 0);
}

#[test]
fn time_is_stored_with_a_frame_and_before_it() {
    let mut source = FrameSource::new(format_of(0, 7, false));
    let mut last = 77;
    let mut sent: Vec<(u64, i64)> = Vec::new();
    let rounds = [
        (Ok(vec![1, 2]), Some(1_000)),
        (source.image(&[]), Some(2_000)),
        (Ok(vec![3]), Some(3_000)),
        (Ok(vec![]), None),
    ];
    let mut seen = Vec::new();
    for (image, time) in rounds {
        if let Some(out) = source.handle(image, time) {
            for step in out.steps() {
                match step {
                    PublishStep::StoreTime { millis } => last = millis,
                    PublishStep::Send { frame } => sent.push((frame.seq, last)),
                }
            }
        }
        seen.push(last);
    }
    // The second image could not be made: no frame, no number used up, no time stored.
    assert_eq!(sent, vec![(0, 1_000), (1, 3_000), (2, 0)]);
    assert_eq!(seen, vec![1_000, 1_000, 3_000, 0]);
    assert_eq!(source.state().next_seq, 3);
}

#[test]
fn capture_loop_goes_through_its_actions() {
    assert_eq!(capture_loop(CaptureEvent::Checked { stop: false }), CaptureAction::Read);
    assert_eq!(capture_loop(CaptureEvent::Checked { stop: true }), CaptureAction::Finish);
    assert_eq!(capture_loop(CaptureEvent::ReadFailed), CaptureAction::Pause { millis: 50 });
    let read = |flags, has_sample| capture_loop(CaptureEvent::Read { flags, has_sample });
    assert_eq!(read(0, true), CaptureAction::Extract);
    assert_eq!(read(0, false), CaptureAction::CheckStop);
    assert_eq!(read(2, true), CaptureAction::Finish);
    assert_eq!(read(0x106, false), CaptureAction::Finish);
    assert_eq!(read(0x101, true), CaptureAction::Extract);
    assert_eq!(capture_loop(CaptureEvent::Paused), CaptureAction::CheckStop);
    assert_eq!(capture_loop(CaptureEvent::ExtractFailed), CaptureAction::CheckStop);
    assert_eq!(capture_loop(CaptureEvent::Handled), CaptureAction::CheckStop);
}

#[test]
fn clock_readings() {
    assert_eq!(unix_millis(None), 0);
    assert_eq!(unix_millis(Some(42)), 42);
    assert_eq!(unix_millis(Some(1u128 << 64)), 0);
    assert_eq!(unix_millis(Some((1u128 << 64) - 1)), -1);
    assert_eq!(millis_since(0, 1_000), None);
    assert_eq!(millis_since(400, 1_000), Some(600));
    assert_eq!(millis_since(1_000, 1_000), Some(0));
    assert_eq!(millis_since(2_000, 1_000), Some(0));
    assert_eq!(elapsed(5, 9), 4);
    assert_eq!(elapsed(9, 5), 0);
}
