use astrocam::camera::Camera;
use astrocam::camera::CameraError;
use astrocam::cameraframe::CameraFrame;
use astrocam::cameraframe::CameraFrameType;
use astrocam::cameraframe::channel_count;
use astrocam::cameraframe::pixel_size;
use astrocam::cameraframe::sample_bits;
use astrocam::pixel::PixelType;
use astrocam::sim::SimCamera;

/// A backend that overrides nothing, exercising the capability defaults.
struct BareCamera;

impl Camera for BareCamera {
    fn name(&self) -> String {
        "Bare".to_string()
    }
}

#[test]
fn unimplemented_capabilities_signal_not_supported() {
    let mut cam = BareCamera;
    assert!(matches!(cam.connect(), Err(CameraError::NotSupported)));
    assert!(matches!(cam.disconnect(), Err(CameraError::NotSupported)));
    assert!(matches!(cam.set_exposure(10), Err(CameraError::NotSupported)));
    assert!(matches!(cam.get_exposure(), Err(CameraError::NotSupported)));
    assert!(matches!(cam.get_exposure_limits(), Err(CameraError::NotSupported)));
    assert!(matches!(cam.set_gain(1), Err(CameraError::NotSupported)));
    assert!(matches!(cam.get_gain(), Err(CameraError::NotSupported)));
    assert!(matches!(cam.get_roi(), Err(CameraError::NotSupported)));
    assert!(matches!(cam.set_roi(0, 0, 1, 1), Err(CameraError::NotSupported)));
    assert!(matches!(cam.get_max_roi(), Err(CameraError::NotSupported)));
    assert!(matches!(cam.start(), Err(CameraError::NotSupported)));
    assert!(matches!(cam.stop(), Err(CameraError::NotSupported)));
}

#[test]
fn camera_error_messages() {
    assert_eq!(CameraError::Connection.message(), "Connection error");
    assert_eq!(CameraError::Config.message(), "Configuration error");
    assert_eq!(CameraError::Read.message(), "Read error");
    assert_eq!(CameraError::Write.message(), "Write error");
    assert_eq!(
        CameraError::NotSupported.message(),
        "Function not supported for this camera"
    );
    assert_eq!(
        CameraError::Other("stalled".to_string()).message(),
        "Error: stalled"
    );
}

#[test]
fn sim_camera_configuration() {
    let mut cam = SimCamera::new(100, 100, 8);
    assert_eq!(cam.name(), "Simulated Camera");
    assert!(cam.connect().is_ok());
    assert!(cam.set_exposure(100_000).is_ok());
    assert_eq!(cam.get_exposure().unwrap(), 100_000);
    assert!(cam.set_gain(12).is_ok());
    assert_eq!(cam.get_gain().unwrap(), 12);
    assert_eq!(cam.get_roi().unwrap(), (0, 0, 100, 100));
    assert!(cam.set_roi(0, 0, 64, 48).is_ok());
    assert_eq!(cam.get_roi().unwrap(), (0, 0, 64, 48));
    assert_eq!(cam.get_max_roi().unwrap(), (0, 0, 0, 0));
    assert_eq!(cam.get_exposure_limits().unwrap(), (0, 0));
}

#[test]
fn sim_lifecycle_start_stop() {
    let mut cam = SimCamera::new(100, 100, 8);
    assert!(!cam.is_running());
    assert!(cam.start().is_ok());
    assert!(cam.is_running());
    // A second start while Running is rejected with a Config error.
    assert!(matches!(cam.start(), Err(CameraError::Config)));
    assert!(cam.is_running());
    assert!(cam.stop().is_ok());
    // After stop, the delivery condition is false: no callback fires.
    assert!(!cam.is_running());
    // The machine may be started again.
    assert!(cam.start().is_ok());
    assert!(cam.stop().is_ok());
}

#[test]
fn sim_frame_parameters() {
    let cam8 = SimCamera::new(64, 64, 8);
    assert_eq!(cam8.sensor_max(), 255);
    assert_eq!(cam8.blob_params(), (8, 32, 128));
    assert_eq!(cam8.frame_pixel_type(), PixelType::Gray8);
    assert_eq!(cam8.cycle_sleep_us(), 1_000_000 / 30);

    let cam12 = SimCamera::new(64, 64, 12);
    assert_eq!(cam12.sensor_max(), 4095);
    assert_eq!(cam12.blob_params(), (128, 512, 2048));
    assert_eq!(cam12.frame_pixel_type(), PixelType::Gray16);
}

#[test]
fn pixel_layout_tables() {
    assert_eq!(pixel_size(PixelType::Gray8), 1);
    assert_eq!(pixel_size(PixelType::Gray16), 2);
    assert_eq!(pixel_size(PixelType::Rgb8), 3);
    assert_eq!(pixel_size(PixelType::Rgb16), 6);
    assert_eq!(pixel_size(PixelType::Rgba8), 4);
    assert_eq!(pixel_size(PixelType::Rgba16), 8);

    assert_eq!(channel_count(PixelType::Gray16), 1);
    assert_eq!(channel_count(PixelType::Rgb8), 3);
    assert_eq!(channel_count(PixelType::Rgba16), 4);

    assert_eq!(sample_bits(PixelType::Gray8), 8);
    assert_eq!(sample_bits(PixelType::Rgb16), 16);
}

#[test]
fn camera_frame_construction_and_dispatch() {
    let frame = CameraFrame::new(5_000, 1_700_000_000_000, PixelType::Gray16, Some(12), vec![0; 8], 2, 2);
    assert_eq!(frame.exposure_us, 5_000);
    assert_eq!(frame.width, 2);
    assert_eq!(frame.height, 2);
    let tagged = CameraFrameType::from_frame(frame).unwrap();
    assert!(matches!(tagged, CameraFrameType::Mono16(_)));
    assert_eq!(tagged.frame().bit_depth, Some(12));
}

#[test]
fn sixteen_bit_color_frames_have_no_tag() {
    let frame = CameraFrame::new(0, 0, PixelType::Rgb16, None, vec![0; 6], 1, 1);
    assert!(CameraFrameType::from_frame(frame).is_none());
    let frame = CameraFrame::new(0, 0, PixelType::Rgba16, None, vec![0; 8], 1, 1);
    assert!(CameraFrameType::from_frame(frame).is_none());
}

#[test]
fn mono_frames_decode_into_typed_buffers() {
    let f8 = CameraFrame::new(0, 0, PixelType::Gray8, Some(8), vec![1, 2, 3, 4, 5, 6], 3, 2);
    let b8 = f8.mono8_buffer().unwrap();
    assert_eq!((b8.width, b8.height), (3, 2));
    assert_eq!(b8.data, vec![1, 2, 3, 4, 5, 6]);
    assert!(f8.mono16_buffer().is_none());

    // Two little-endian bytes per element: 0x0201, 0x0403.
    let f16 = CameraFrame::new(0, 0, PixelType::Gray16, Some(16), vec![1, 2, 3, 4], 2, 1);
    let b16 = f16.mono16_buffer().unwrap();
    assert_eq!((b16.width, b16.height), (2, 1));
    assert_eq!(b16.data, vec![0x0201, 0x0403]);
    assert!(f16.mono8_buffer().is_none());
    assert_eq!(b16.sum(), 0x0201 + 0x0403);
}

#[test]
fn default_frame_is_empty_mono8() {
    let frame = CameraFrame::default();
    assert_eq!(frame.width, 0);
    assert_eq!(frame.height, 0);
    assert!(frame.data.is_empty());
    assert!(matches!(frame.pixeltype, PixelType::Gray8));
    assert!(frame.bit_depth.is_none());
}
