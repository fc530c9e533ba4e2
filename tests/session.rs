use nokhwa::{frame_size_fits, JSCamera, JSCameraConstraintsBuilder, NokhwaError, Resolution};

fn camera(width: u32, height: u32) -> JSCamera<u32, &'static str> {
    let constraints = JSCameraConstraintsBuilder::new().resolution(Resolution::new(width, height)).build();
    JSCamera::new(7, constraints)
}

#[test]
fn fresh_session_detach_is_a_no_op() {
    let mut cam = camera(2, 1);
    assert!(!cam.is_attached());
    assert_eq!(cam.de_attach(), None);
    assert!(!cam.is_attached());
    assert_eq!(*cam.media_stream(), 7);
}

#[test]
fn second_attach_replaces_the_first() {
    let mut cam = camera(2, 1);
    cam.attach("first");
    cam.attach("second");
    assert!(cam.is_attached());
    assert_eq!(cam.attached_node(), Some(&"second"));
    assert_eq!(cam.de_attach(), Some("second"));
    assert!(!cam.is_attached());
    assert_eq!(cam.de_attach(), None);
}

#[test]
fn close_hands_back_stream_and_node() {
    let mut cam = camera(2, 1);
    cam.attach("video");
    assert_eq!(cam.close(), (7, Some("video")));
    assert_eq!(camera(2, 1).close(), (7, None));
}

#[test]
fn session_setters_reach_the_constraints() {
    let mut cam = camera(640, 480);
    cam.set_preferred_resolution(Resolution::new(320, 240));
    cam.set_frame_rate(24);
    assert_eq!(cam.preferred_resolution(), Resolution::new(320, 240));
    assert_eq!(cam.frame_rate(), 24);
    cam.apply_constraints();
    assert_eq!(cam.min_buffer_size(true), 320 * 240 * 4);
    assert_eq!(cam.min_buffer_size(false), 320 * 240 * 3);
}

#[test]
fn frames_are_checked_against_the_resolution() {
    let cam = camera(2, 1);
    let raw = vec![1, 2, 3, 4, 5, 6, 7, 8];
    assert_eq!(cam.frame(&raw).unwrap(), vec![1, 2, 3, 5, 6, 7]);
    assert_eq!(cam.rgba_frame(raw.clone()).unwrap(), raw);
    assert!(matches!(cam.frame(&raw[..7]), Err(NokhwaError::ReadFrameError(_))));
    assert!(matches!(cam.rgba_frame(vec![0; 12]), Err(NokhwaError::ReadFrameError(_))));
}

#[test]
fn write_frame_as_rgb_and_rgba() {
    let cam = camera(2, 1);
    let raw = [1, 2, 3, 4, 5, 6, 7, 8];
    let mut buffer = [0u8; 10];
    assert_eq!(cam.write_frame_to_buffer(&raw, &mut buffer, false).unwrap(), 6);
    assert_eq!(buffer, [1, 2, 3, 5, 6, 7, 0, 0, 0, 0]);
    let mut buffer = [9u8; 8];
    assert_eq!(cam.write_frame_to_buffer(&raw, &mut buffer, true).unwrap(), 8);
    assert_eq!(buffer, raw);
}

#[test]
fn write_frame_refuses_a_short_buffer() {
    let cam = camera(2, 1);
    let raw = [1, 2, 3, 4, 5, 6, 7, 8];
    let mut buffer = [9u8; 7];
    assert!(matches!(cam.write_frame_to_buffer(&raw, &mut buffer, true), Err(NokhwaError::ReadFrameError(_))));
    assert_eq!(buffer, [9u8; 7]);
    let mut buffer = [9u8; 5];
    assert!(matches!(cam.write_frame_to_buffer(&raw, &mut buffer, false), Err(NokhwaError::ReadFrameError(_))));
    assert_eq!(buffer, [9u8; 5]);
}

#[test]
fn write_frame_refuses_a_frame_of_the_wrong_size() {
    let cam = camera(2, 1);
    let mut buffer = [9u8; 16];
    assert!(matches!(cam.write_frame_to_buffer(&[0; 12], &mut buffer, true), Err(NokhwaError::ReadFrameError(_))));
    assert_eq!(buffer, [9u8; 16]);
}

#[test]
fn frame_size_fit_check() {
    assert!(frame_size_fits(Resolution::new(1920, 1080), true));
    assert!(frame_size_fits(Resolution::new(0, u32::MAX), true));
    let huge = Resolution::new(u32::MAX, u32::MAX);
    assert_eq!(frame_size_fits(huge, false), (u32::MAX as u128 * u32::MAX as u128 * 3) <= usize::MAX as u128);
}

#[test]
fn presentation_uses_width_and_height() {
    let cam = camera(640, 480);
    assert_eq!(cam.presentation_size(), (640, 480));
}
