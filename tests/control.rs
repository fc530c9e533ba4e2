use nokhwa::{all_known_camera_controls, CameraControl, KnownCameraControlFlag, KnownCameraControls, NokhwaError};

fn gain(min: i32, max: i32, value: i32, step: i32) -> Result<CameraControl, NokhwaError> {
    CameraControl::new(KnownCameraControls::Gain, min, max, value, step, 0, KnownCameraControlFlag::Manual, true)
}

#[test]
fn control_rejects_bounds_and_misaligned_values() {
    assert!(matches!(gain(0, 100, 0, 10), Err(NokhwaError::StructureError { .. })));
    assert!(matches!(gain(0, 100, 100, 10), Err(NokhwaError::StructureError { .. })));
    assert!(matches!(gain(0, 100, 55, 10), Err(NokhwaError::StructureError { .. })));
    assert!(matches!(gain(0, 100, 150, 10), Err(NokhwaError::StructureError { .. })));
    assert!(matches!(gain(0, 100, -5, 5), Err(NokhwaError::StructureError { .. })));
}

#[test]
fn control_rejects_zero_step() {
    assert!(matches!(gain(0, 100, 50, 0), Err(NokhwaError::StructureError { .. })));
}

#[test]
fn control_accepts_aligned_midpoint() {
    let c = gain(0, 100, 50, 10).unwrap();
    assert_eq!(c.value(), 50);
    assert_eq!(c.minimum_value(), 0);
    assert_eq!(c.maximum_value(), 100);
    assert_eq!(c.step(), 10);
    assert_eq!(c.default(), 0);
    assert_eq!(c.flag(), KnownCameraControlFlag::Manual);
    assert!(c.active());
    assert_eq!(c.control(), KnownCameraControls::Gain);
    let neg = gain(-100, 100, -30, -15).unwrap();
    assert_eq!(neg.value(), -30);
}

#[test]
fn set_value_checks_like_new() {
    let mut c = gain(0, 100, 50, 10).unwrap();
    assert!(c.set_value(70).is_ok());
    assert_eq!(c.value(), 70);
    assert!(c.set_value(100).is_err());
    assert!(c.set_value(0).is_err());
    assert!(c.set_value(71).is_err());
    assert_eq!(c.value(), 70);
}

#[test]
fn with_value_keeps_the_rest() {
    let c = gain(0, 100, 50, 10).unwrap();
    let d = c.with_value(20).unwrap();
    assert_eq!(d.value(), 20);
    assert_eq!(d.with_value(50).unwrap(), c);
    assert!(c.with_value(-10).is_err());
}

#[test]
fn valid_values_walk_the_range() {
    assert_eq!(gain(0, 30, 10, 10).unwrap().valid_values(), vec![0, 10, 20, 30]);
    assert_eq!(gain(0, 35, 10, 10).unwrap().valid_values(), vec![0, 10, 20, 30]);
    assert_eq!(gain(-10, 10, 0, 5).unwrap().valid_values(), vec![-10, -5, 0, 5, 10]);
    assert_eq!(gain(-10, 10, 0, -5).unwrap().valid_values(), vec![-10]);
}

#[test]
fn known_controls_list_and_names() {
    let all = all_known_camera_controls();
    assert_eq!(all.len(), 17);
    assert_eq!(all[0], KnownCameraControls::Brightness);
    assert_eq!(all[16], KnownCameraControls::Focus);
    assert_eq!(KnownCameraControls::WhiteBalance.to_string(), "WhiteBalance");
}

#[test]
fn v4l_control_ids() {
    assert_eq!(KnownCameraControls::from_v4l_control_id(9_963_776).unwrap(), KnownCameraControls::Brightness);
    assert_eq!(KnownCameraControls::from_v4l_control_id(9_963_778).unwrap(), KnownCameraControls::Saturation);
    assert_eq!(KnownCameraControls::from_v4l_control_id(10_094_859).unwrap(), KnownCameraControls::Focus);
    assert!(matches!(
        KnownCameraControls::from_v4l_control_id(1),
        Err(NokhwaError::NotImplementedError(_))
    ));
}

#[test]
fn refusals_name_the_control_structure() {
    for refused in [gain(0, 100, 0, 10), gain(0, 100, 100, 10), gain(0, 100, 55, 10)] {
        match refused {
            Err(NokhwaError::StructureError { structure, .. }) => assert_eq!(structure, "CameraControl"),
            other => panic!("expected a StructureError, got {:?}", other),
        }
    }
    let mut c = gain(0, 100, 50, 10).unwrap();
    match c.set_value(3) {
        Err(NokhwaError::StructureError { structure, .. }) => assert_eq!(structure, "CameraControl"),
        other => panic!("expected a StructureError, got {:?}", other),
    }
}
