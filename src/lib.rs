//! Camera access data model, pixel conversion and browser capture-session logic.
//!
//! - [`FrameFormat`], [`Resolution`], [`CameraFormat`], [`CameraInfo`]: the format model.
//! - [`CameraControl`]: one adjustable camera parameter, always holding a valid value.
//! - [`yuyv422_to_rgb888`], [`rgb888_from_scanlines`], [`rgba_to_rgb888`]: pixel conversion.
//! - [`JSCameraConstraintsBuilder`], [`JSCameraConstraints`]: the request for a browser stream.
//! - [`JSCamera`]: the capture session over a browser stream.

mod codec;
mod constraints;
mod control;
mod error;
mod format;
mod session;
mod text;

pub use codec::{
    blue_of, channel_of, clamp_byte, green_of, packed_pixels, red_of, rgb888_from_scanlines,
    rgba_to_rgb, rgba_to_rgb888, yuyv422_byte, yuyv422_group_law, yuyv422_rgb, yuyv422_to_rgb888,
    yuyv444_to_rgb888,
};
pub use constraints::{
    capability_name, constraint_rendering_law, directive, facing_mode_name, fragments_sorted_law,
    is_capability_name, joined, known_capability_names, optional, quoted, resize_mode_name,
    strictly_sorted, string_views, supported_capabilities, text_before, AspectRatio,
    ConstraintDirectives, ConstraintsModel, JSCameraConstraints, JSCameraConstraintsBuilder,
    JSCameraFacingMode, JSCameraResizeMode, JSCameraSupportedCapabilities,
};
pub use control::{
    aligned, all_controls, all_known_camera_controls, control_name, control_value_law,
    is_control_error,
    v4l_control, valid_setting, valid_values_of, CameraControl, KnownCameraControlFlag,
    KnownCameraControls,
};
pub use error::NokhwaError;
pub use format::{
    backend_name, camera_format_text, camera_info_text, frame_format_fourcc, frame_format_name,
    resolution_cmp, resolution_order, resolution_text, CameraFormat, CameraIndexType, CameraInfo,
    CaptureAPIBackend, FrameFormat, Resolution,
};
pub use session::{
    frame_payload, frame_size, frame_size_fits, session_attach_law, JSCamera, SessionModel,
};
pub use text::{decimal, digit_char};
