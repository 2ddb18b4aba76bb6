use astrocam::camera::CameraError;
use astrocam::svbony::SVBCameraInfo;
use astrocam::svbony::SVBCameraProperty;
use astrocam::svbony::SVBControlCaps;
use astrocam::svbony::SVBonyCamera;
use astrocam::svbony::format_list_string;
use astrocam::svbony::bit_depth_for_format;
use astrocam::svbony::pixel_stride_for_depth;
use astrocam::svbony::readout_timeout_ms;
use astrocam::svbony_types::SVBBayerPattern;
use astrocam::svbony_types::SVBBool;
use astrocam::svbony_types::SVBControlType;
use astrocam::svbony_types::SVBErrorCode;
use astrocam::svbony_types::SVBImageType;
use astrocam::svbony_types::camera_error_from_svb;

fn caps(ctrl: SVBControlType, default_value: i64) -> SVBControlCaps {
    SVBControlCaps {
        name: "ctl".to_string(),
        description: "a control".to_string(),
        max_value: 1000,
        min_value: 0,
        default_value,
        is_auto_supported: false,
        is_writable: true,
        control_type: ctrl,
    }
}

fn test_camera() -> SVBonyCamera {
    SVBonyCamera::from_parts(
        7,
        SVBCameraInfo {
            camera_id: 7,
            friendly_name: "SVB Test".to_string(),
            serial_number: "SN0001".to_string(),
            port_type: "USB3".to_string(),
        },
        SVBCameraProperty {
            max_width: 1920,
            max_height: 1080,
            is_color_cam: false,
            bayer_pattern: SVBBayerPattern::RG,
            supported_bins: vec![1, 2, 4],
            supported_video_format: vec![SVBImageType::SVBImageRaw8, SVBImageType::SVBImageRaw12],
        },
        vec![caps(SVBControlType::SVBGain, 10), caps(SVBControlType::SVBExposure, 30000)],
    )
}

#[test]
fn camera_descriptor_getters() {
    let cam = test_camera();
    assert_eq!(cam.max_width(), 1920);
    assert_eq!(cam.max_height(), 1080);
    assert!(!cam.is_color_cam());
    assert_eq!(cam.bayer_pattern(), SVBBayerPattern::RG);
    assert_eq!(cam.supported_bins(), vec![1, 2, 4]);
    assert_eq!(
        cam.supported_video_formats(),
        vec![SVBImageType::SVBImageRaw8, SVBImageType::SVBImageRaw12]
    );
    assert_eq!(cam.get_info().friendly_name, "SVB Test");
    assert_eq!(cam.get_properties().max_width, 1920);
}

#[test]
fn control_lookup_finds_first_match() {
    let cam = test_camera();
    let gain = cam.get_control_info(&SVBControlType::SVBGain).unwrap();
    assert_eq!(gain.default_value, 10);
    let exposure = cam.get_control_info(&SVBControlType::SVBExposure).unwrap();
    assert_eq!(exposure.default_value, 30000);
}

#[test]
fn control_lookup_reports_missing_control() {
    let cam = test_camera();
    let missing = cam.get_control_info(&SVBControlType::SVBGamma);
    match missing {
        Err(CameraError::Other(s)) => assert_eq!(s, "Control not found"),
        _ => panic!("expected a descriptive error"),
    }
}

#[test]
fn camera_name_and_summary() {
    let mut cam = test_camera();
    assert_eq!(cam.name(), "SVB Test");
    assert_eq!(
        cam.summary(),
        "SVBonyCamera\n    Name: SVB Test\n    Serial Number: SN0001\n    Port Type: USB3\n    Format: 1920 x 1080\n    Color: false\n    Supported Bins: [1, 2, 4]\n    Supported Video Formats: [SVBImageRaw8, SVBImageRaw12]\n"
    );
    cam.property.is_color_cam = true;
    assert!(cam.summary().contains("Color: true\n    Bayer Pattern: RG\n"));
}

#[test]
fn decimal_rendering() {
    assert_eq!(astrocam::text::u32_to_decimal(0), "0");
    assert_eq!(astrocam::text::u32_to_decimal(7), "7");
    assert_eq!(astrocam::text::u32_to_decimal(1080), "1080");
    assert_eq!(astrocam::text::u32_to_decimal(u32::MAX), "4294967295");
    assert_eq!(astrocam::text::i32_to_decimal(-1), "-1");
    assert_eq!(astrocam::text::i32_to_decimal(i32::MIN), "-2147483648");
    assert_eq!(astrocam::text::i32_to_decimal(i32::MAX), "2147483647");
    assert_eq!(astrocam::text::i32_list_string(&vec![]), "[]");
    assert_eq!(astrocam::text::i32_list_string(&vec![5]), "[5]");
    assert_eq!(astrocam::text::i32_list_string(&vec![1, -2, 30]), "[1, -2, 30]");
}

#[test]
fn format_list_rendering() {
    assert_eq!(format_list_string(&vec![]), "[]");
    assert_eq!(
        format_list_string(&vec![SVBImageType::SVBImageY8, SVBImageType::SVBImageRGB24]),
        "[SVBImageY8, SVBImageRGB24]"
    );
}

#[test]
fn capture_setup_constants() {
    let writes = astrocam::svbony::capture_setup_writes();
    assert_eq!(
        writes,
        vec![
            (SVBControlType::SVBFrameSpeedMode, 2),
            (SVBControlType::SVBExposure, 30000),
        ]
    );
}

#[test]
fn vendor_lifecycle_flags() {
    let mut cam = test_camera();
    assert!(!cam.is_running());
    assert!(cam.start().is_ok());
    assert!(matches!(cam.start(), Err(CameraError::Config)));
    cam.stop();
    assert!(!cam.is_running());
    cam.mark_closed();
    assert_eq!(cam.id, -1);
}

#[test]
fn readout_timeout_follows_vendor_margin() {
    // Timeout is 2x the exposure (microseconds to milliseconds) plus 500 ms.
    assert_eq!(readout_timeout_ms(0), 500);
    assert_eq!(readout_timeout_ms(30_000), 560);
    assert_eq!(readout_timeout_ms(1_000_000), 2500);
}

#[test]
fn bit_depth_per_format_and_binning() {
    assert_eq!(bit_depth_for_format(&SVBImageType::SVBImageRaw8, 1), 8);
    assert_eq!(bit_depth_for_format(&SVBImageType::SVBImageRaw10, 1), 10);
    assert_eq!(bit_depth_for_format(&SVBImageType::SVBImageRaw12, 1), 12);
    assert_eq!(bit_depth_for_format(&SVBImageType::SVBImageRaw14, 1), 14);
    assert_eq!(bit_depth_for_format(&SVBImageType::SVBImageRaw16, 1), 12);
    assert_eq!(bit_depth_for_format(&SVBImageType::SVBImageY8, 1), 8);
    assert_eq!(bit_depth_for_format(&SVBImageType::SVBImageRaw8, 2), 32);
}

#[test]
fn pixel_stride_per_depth() {
    assert_eq!(pixel_stride_for_depth(8), Some(1));
    assert_eq!(pixel_stride_for_depth(10), Some(2));
    assert_eq!(pixel_stride_for_depth(12), Some(2));
    assert_eq!(pixel_stride_for_depth(14), Some(2));
    assert_eq!(pixel_stride_for_depth(16), Some(2));
    assert_eq!(pixel_stride_for_depth(32), None);
    assert_eq!(pixel_stride_for_depth(7), None);
}

#[test]
fn error_codes_round_trip() {
    assert_eq!(SVBErrorCode::Success.code(), 0);
    assert_eq!(SVBErrorCode::Timeout.code(), 11);
    assert_eq!(SVBErrorCode::UnknownSensorType.code(), 19);
    for c in 0..20 {
        let e = SVBErrorCode::from_code(c).unwrap();
        assert_eq!(e.code(), c);
    }
    assert!(SVBErrorCode::from_code(20).is_none());
    assert!(SVBErrorCode::from_code(-1).is_none());
}

#[test]
fn error_code_messages() {
    assert_eq!(SVBErrorCode::Timeout.message(), "Timeout");
    assert_eq!(SVBErrorCode::CameraClosed.message(), "Camera closed");
    assert_eq!(SVBErrorCode::BufferTooSmall.message(), "Buffer too small");
}

#[test]
fn vendor_error_maps_to_descriptive_other() {
    let err = camera_error_from_svb(&SVBErrorCode::Timeout);
    match err {
        CameraError::Other(s) => assert_eq!(s, "Timeout"),
        _ => panic!("expected Other"),
    }
}

#[test]
fn vendor_enum_codes() {
    assert_eq!(SVBBayerPattern::from_code(2), Some(SVBBayerPattern::GR));
    assert_eq!(SVBBayerPattern::from_code(4), None);
    assert_eq!(SVBImageType::from_code(-1), Some(SVBImageType::SVBImageEnd));
    assert_eq!(SVBImageType::from_code(1), None);
    assert_eq!(SVBImageType::SVBImageRGB32.code(), 12);
    assert_eq!(SVBControlType::from_code(19), Some(SVBControlType::SVBBadPixelCorrectionThreshold));
    assert_eq!(SVBControlType::from_code(20), None);
    assert!(SVBBool::from_code(1).unwrap().to_bool());
    assert!(!SVBBool::from_code(0).unwrap().to_bool());
}
