use nokhwa::{
    rgb888_from_scanlines, rgba_to_rgb888, yuyv422_to_rgb888, yuyv444_to_rgb888, FrameFormat,
    NokhwaError,
};

#[test]
fn yuyv444_black_and_white() {
    assert_eq!(yuyv444_to_rgb888(16, 128, 128), [0, 0, 0]);
    assert_eq!(yuyv444_to_rgb888(235, 128, 128), [255, 255, 255]);
}

#[test]
fn yuyv444_primaries() {
    assert_eq!(yuyv444_to_rgb888(81, 90, 240), [255, 0, 0]);
    assert_eq!(yuyv444_to_rgb888(145, 54, 34), [0, 255, 1]);
    assert_eq!(yuyv444_to_rgb888(41, 240, 110), [0, 0, 255]);
}

#[test]
fn yuyv444_clamps_out_of_range_samples() {
    assert_eq!(yuyv444_to_rgb888(0, 128, 128), [0, 0, 0]);
    assert_eq!(yuyv444_to_rgb888(255, 128, 128), [255, 255, 255]);
    assert_eq!(yuyv444_to_rgb888(i32::MIN, i32::MAX, i32::MIN), [0, 0, 255]);
}

#[test]
fn yuyv422_four_bytes_give_two_pixels() {
    let rgb = yuyv422_to_rgb888(&[100, 50, 150, 200]).unwrap();
    assert_eq!(rgb.len(), 6);
    assert_eq!(rgb, vec![213, 70, 0, 255, 128, 0]);
}

#[test]
fn yuyv422_shares_chroma_within_a_group() {
    let rgb = yuyv422_to_rgb888(&[16, 128, 235, 128, 235, 128, 16, 128]).unwrap();
    assert_eq!(rgb, vec![0, 0, 0, 255, 255, 255, 255, 255, 255, 0, 0, 0]);
}

#[test]
fn yuyv422_empty_stream() {
    assert_eq!(yuyv422_to_rgb888(&[]).unwrap(), Vec::<u8>::new());
}

#[test]
fn yuyv422_rejects_partial_group() {
    for len in [1usize, 2, 3, 5, 7] {
        let data = vec![128u8; len];
        match yuyv422_to_rgb888(&data) {
            Err(NokhwaError::ProcessFrameError { src, destination, .. }) => {
                assert_eq!(src, FrameFormat::YUYV);
                assert_eq!(destination, "RGB888");
            }
            other => panic!("expected a ProcessFrameError, got {:?}", other),
        }
    }
}

#[test]
fn scanlines_are_packed_in_order() {
    let rgb = rgb888_from_scanlines(Ok(vec![[1, 2, 3], [4, 5, 6]])).unwrap();
    assert_eq!(rgb, vec![1, 2, 3, 4, 5, 6]);
    assert_eq!(rgb888_from_scanlines(Ok(vec![])).unwrap(), Vec::<u8>::new());
}

#[test]
fn decoder_failure_is_a_process_frame_error() {
    match rgb888_from_scanlines(Err("corrupt stream".to_string())) {
        Err(NokhwaError::ProcessFrameError { src, destination, error }) => {
            assert_eq!(src, FrameFormat::MJPEG);
            assert_eq!(destination, "RGB888");
            assert_eq!(error, "corrupt stream");
        }
        other => panic!("expected a ProcessFrameError, got {:?}", other),
    }
}

#[test]
fn rgba_loses_alpha() {
    assert_eq!(rgba_to_rgb888(&[1, 2, 3, 4, 5, 6, 7, 8]), vec![1, 2, 3, 5, 6, 7]);
    assert_eq!(rgba_to_rgb888(&[]), Vec::<u8>::new());
}
