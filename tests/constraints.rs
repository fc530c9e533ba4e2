use nokhwa::{
    AspectRatio, JSCameraConstraintsBuilder, JSCameraFacingMode, JSCameraResizeMode,
    JSCameraSupportedCapabilities, NokhwaError, Resolution, supported_capabilities,
};

/// A builder with the resolution, aspect ratio and frame rate set to zero: nothing renders.
fn unset() -> JSCameraConstraintsBuilder {
    JSCameraConstraintsBuilder::new()
        .resolution(Resolution::new(0, 0))
        .aspect_ratio(AspectRatio::new(0, 0))
        .frame_rate(0)
}

#[test]
fn default_builder_asks_for_vga_at_fifteen_fps() {
    let c = JSCameraConstraintsBuilder::new().build();
    assert_eq!(c.preferred_resolution(), Resolution::new(640, 480));
    assert_eq!(c.frame_rate(), 15);
    assert_eq!(c.aspect_ratio(), AspectRatio::new(16, 9));
    assert_eq!(c.facing_mode(), JSCameraFacingMode::Any);
    assert_eq!(c.resize_mode(), JSCameraResizeMode::Any);
    assert_eq!(c.device_id(), "");
    assert_eq!(c.group_id(), "");
    assert!(!c.resolution_exact() && !c.aspect_ratio_exact() && !c.facing_mode_exact());
    assert!(!c.frame_rate_exact() && !c.resize_mode_exact() && !c.device_id_exact() && !c.group_id_exact());
    assert_eq!(
        c.media_constraints(),
        "return { audio: false, video: { aspectRatio: { ideal: 16/9 }, frameRate: { ideal: 15 }, \
         height: { ideal: 480 }, width: { ideal: 640 } } };"
    );
    let d = JSCameraConstraintsBuilder::default().build();
    assert_eq!(d.media_constraints(), c.media_constraints());
}

#[test]
fn unset_builder_accepts_any_video() {
    let c = unset().build();
    assert_eq!(c.media_constraints(), "return { audio: false, video: true };");
}

#[test]
fn resolution_alone_renders_ideal_width_and_height() {
    let c = unset().resolution(Resolution::new(640, 480)).build();
    assert_eq!(
        c.media_constraints(),
        "return { audio: false, video: { height: { ideal: 480 }, width: { ideal: 640 } } };"
    );
    assert_eq!(c.preferred_resolution(), Resolution::new(640, 480));
    assert!(!c.resolution_exact());
}

#[test]
fn exact_resolution_renders_exact() {
    let c = unset()
        .resolution(Resolution::new(1280, 720))
        .resolution_exact(true)
        .build();
    assert_eq!(
        c.media_constraints(),
        "return { audio: false, video: { height: { exact: 720 }, width: { exact: 1280 } } };"
    );
}

#[test]
fn zero_width_is_left_out() {
    let c = unset().resolution(Resolution::new(0, 480)).build();
    assert_eq!(c.media_constraints(), "return { audio: false, video: { height: { ideal: 480 } } };");
}

#[test]
fn all_directives_render_sorted() {
    let c = JSCameraConstraintsBuilder::new()
        .resolution(Resolution::new(1920, 1080))
        .aspect_ratio(AspectRatio::new(16, 9))
        .aspect_ratio_exact(true)
        .facing_mode(JSCameraFacingMode::User)
        .frame_rate(30)
        .frame_rate_exact(true)
        .resize_mode(JSCameraResizeMode::CropAndScale)
        .device_id(&"cam-1")
        .device_id_exact(true)
        .group_id(&"group-9")
        .facing_mode_exact(false)
        .resize_mode_exact(false)
        .group_id_exact(false)
        .build();
    assert_eq!(
        c.media_constraints(),
        "return { audio: false, video: { aspectRatio: { exact: 16/9 }, deviceId: { exact: \"cam-1\" }, \
         facingMode: { ideal: \"user\" }, frameRate: { exact: 30 }, groupId: { ideal: \"group-9\" }, \
         height: { ideal: 1080 }, resizeMode: { ideal: \"crop-and-scale\" }, width: { ideal: 1920 } } };"
    );
    assert_eq!(c.device_id(), "cam-1");
    assert_eq!(c.group_id(), "group-9");
    assert!(c.device_id_exact());
    assert!(!c.group_id_exact());
    assert_eq!(c.aspect_ratio(), AspectRatio::new(16, 9));
    assert_eq!(c.facing_mode(), JSCameraFacingMode::User);
    assert_eq!(c.resize_mode(), JSCameraResizeMode::CropAndScale);
    assert_eq!(c.frame_rate(), 30);
}

#[test]
fn any_modes_and_unset_ratio_render_nothing() {
    let c = unset()
        .facing_mode(JSCameraFacingMode::Any)
        .facing_mode_exact(true)
        .resize_mode(JSCameraResizeMode::Any)
        .aspect_ratio(AspectRatio::new(4, 0))
        .frame_rate(0)
        .frame_rate_exact(true)
        .build();
    assert_eq!(c.media_constraints(), "return { audio: false, video: true };");
}

#[test]
fn setters_wait_for_apply() {
    let mut c = unset().build();
    c.set_frame_rate(60);
    c.set_facing_mode(JSCameraFacingMode::Environment);
    c.set_facing_mode_exact(true);
    assert_eq!(c.media_constraints(), "return { audio: false, video: true };");
    c.apply_constraints();
    assert_eq!(
        c.media_constraints(),
        "return { audio: false, video: { facingMode: { exact: \"environment\" }, frameRate: { ideal: 60 } } };"
    );
    c.set_device_id("abc".to_string());
    c.set_resize_mode(JSCameraResizeMode::NoResize);
    c.set_resize_mode_exact(true);
    c.apply_constraints();
    assert_eq!(
        c.media_constraints(),
        "return { audio: false, video: { deviceId: { ideal: \"abc\" }, facingMode: { exact: \"environment\" }, \
         frameRate: { ideal: 60 }, resizeMode: { exact: \"none\" } } };"
    );
}

#[test]
fn mode_names() {
    assert_eq!(JSCameraFacingMode::Environment.to_string(), "environment");
    assert_eq!(JSCameraFacingMode::Any.to_string(), "any");
    assert_eq!(JSCameraResizeMode::CropAndScale.to_string(), "crop-and-scale");
    assert_eq!(JSCameraResizeMode::NoResize.to_string(), "none");
    assert_eq!(JSCameraResizeMode::Any.to_string(), "");
}

#[test]
fn capability_names_round_trip() {
    let all = [
        JSCameraSupportedCapabilities::DeviceID,
        JSCameraSupportedCapabilities::GroupID,
        JSCameraSupportedCapabilities::AspectRatio,
        JSCameraSupportedCapabilities::FacingMode,
        JSCameraSupportedCapabilities::FrameRate,
        JSCameraSupportedCapabilities::Height,
        JSCameraSupportedCapabilities::Width,
        JSCameraSupportedCapabilities::ResizeMode,
    ];
    for cap in all {
        assert_eq!(JSCameraSupportedCapabilities::try_from(cap.to_string()).unwrap(), cap);
    }
    assert_eq!(JSCameraSupportedCapabilities::FrameRate.to_string(), "frameRate");
    assert!(matches!(
        JSCameraSupportedCapabilities::try_from("zoom".to_string()),
        Err(NokhwaError::StructureError { .. })
    ));
}

#[test]
fn browser_names_filter_to_known_capabilities() {
    let names: Vec<String> = ["width", "zoom", "deviceId", "width", "torch", "resizeMode"]
        .iter()
        .map(|s| s.to_string())
        .collect();
    assert_eq!(
        supported_capabilities(&names),
        vec![
            JSCameraSupportedCapabilities::Width,
            JSCameraSupportedCapabilities::DeviceID,
            JSCameraSupportedCapabilities::Width,
            JSCameraSupportedCapabilities::ResizeMode,
        ]
    );
    assert!(supported_capabilities(&[]).is_empty());
}
