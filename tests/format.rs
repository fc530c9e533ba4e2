use nokhwa::{
    CameraFormat, CameraIndexType, CameraInfo, CaptureAPIBackend, FrameFormat, Resolution,
};
use std::cmp::Ordering;

#[test]
fn resolution_orders_width_first() {
    assert!(Resolution::new(1, 100) < Resolution::new(2, 1));
    assert!(Resolution::new(2, 1) > Resolution::new(1, 100));
    assert!(Resolution::new(640, 360) < Resolution::new(640, 480));
    assert_eq!(Resolution::new(640, 480).partial_cmp(&Resolution::new(640, 480)), Some(Ordering::Equal));
    assert_eq!(Resolution::new(1920, 1080).cmp(&Resolution::new(1280, 1440)), Ordering::Greater);
}

#[test]
fn resolution_sorts_ascending() {
    let mut list = vec![
        Resolution::new(1920, 1080),
        Resolution::new(640, 480),
        Resolution::new(640, 360),
        Resolution::new(1280, 720),
    ];
    list.sort();
    assert_eq!(
        list,
        vec![
            Resolution::new(640, 360),
            Resolution::new(640, 480),
            Resolution::new(1280, 720),
            Resolution::new(1920, 1080),
        ]
    );
}

#[test]
fn resolution_accessors_and_text() {
    let r = Resolution::new(1280, 720);
    assert_eq!((r.width(), r.height(), r.x(), r.y()), (1280, 720, 1280, 720));
    assert_eq!(r.to_string(), "1280x720");
    assert_eq!(Resolution::new(0, 7).to_string(), "0x7");
}

#[test]
fn camera_format_default_and_setters() {
    let mut f = CameraFormat::default();
    assert_eq!(f.resolution(), Resolution::new(640, 480));
    assert_eq!(f.format(), FrameFormat::MJPEG);
    assert_eq!(f.frame_rate(), 15);
    assert_eq!(f.to_string(), "640x480@15FPS, MJPEG Format");
    f.set_resolution(Resolution::new(1920, 1080));
    f.set_format(FrameFormat::YUYV);
    f.set_frame_rate(30);
    assert_eq!((f.width(), f.height()), (1920, 1080));
    assert_eq!(f, CameraFormat::new_from(1920, 1080, FrameFormat::YUYV, 30));
    assert_eq!(f, CameraFormat::new(Resolution::new(1920, 1080), FrameFormat::YUYV, 30));
    assert_eq!(f.to_string(), "1920x1080@30FPS, YUYV Format");
}

#[test]
fn frame_format_names_and_codes() {
    assert_eq!(FrameFormat::MJPEG.to_string(), "MJPEG");
    assert_eq!(FrameFormat::YUYV.to_string(), "YUYV");
    assert_eq!(&FrameFormat::MJPEG.fourcc(), b"MJPG");
    assert_eq!(&FrameFormat::YUYV.fourcc(), b"YUYV");
}

#[test]
fn camera_info_fields_and_text() {
    let mut info = CameraInfo::new("Cam".to_string(), "USB".to_string(), "bus 1".to_string(), 2);
    assert_eq!(info.human_name(), "Cam");
    assert_eq!(info.description(), "USB");
    assert_eq!(info.misc(), "bus 1");
    assert_eq!(*info.index(), 2);
    assert_eq!(info.to_string(), "Name: Cam, Description: USB, Extra: bus 1, Index: 2");
    info.set_human_name("Front".to_string());
    info.set_description("Built-in".to_string());
    info.set_misc("".to_string());
    info.set_index(10);
    assert_eq!(info.to_string(), "Name: Front, Description: Built-in, Extra: , Index: 10");
}

#[test]
fn index_and_backend_names() {
    assert_eq!(CameraIndexType::Index(3).to_string(), "3");
    assert_eq!(CameraIndexType::IPCamera("rtsp://10.0.0.2:554/".to_string()).to_string(), "rtsp://10.0.0.2:554/");
    assert_eq!(CaptureAPIBackend::Video4Linux.to_string(), "Video4Linux");
    assert_eq!(CaptureAPIBackend::Auto.to_string(), "Auto");
}

#[test]
fn media_devices_become_camera_info_when_video() {
    let info = CameraInfo::from_media_device(
        true,
        "Front".to_string(),
        "Videoinput".to_string(),
        "g1",
        "d7",
        3,
    )
    .unwrap();
    assert_eq!(info.human_name(), "Front");
    assert_eq!(info.description(), "Videoinput");
    assert_eq!(info.misc(), "g1:d7");
    assert_eq!(*info.index(), 3);
    assert!(CameraInfo::from_media_device(false, "Mic".to_string(), "Audioinput".to_string(), "g1", "d8", 4).is_none());
}
