//! The vendor camera backend's data model: the closed sets of vendor
//! codes, the static descriptors the driver reports, and the configuration
//! and per-cycle decisions of the hardware acquisition loop. The vendor
//! protocol itself (device I/O) is an external collaborator; everything
//! here is a pure function of plain values.

use vstd::prelude::*;
use vstd::string::StringExecFns;
use crate::camera::CameraError;

verus! {

/// The Bayer mosaic layout of a color sensor.
#[derive(Debug, Clone, Copy, PartialEq, Eq, Structural)]
pub enum SVBBayerPattern {
    RG,
    BG,
    GR,
    GB,
}

impl SVBBayerPattern {
    /// The vendor's numeric code for this value.
    pub open spec fn spec_code(&self) -> int {
        match self {
            SVBBayerPattern::RG => 0,
            SVBBayerPattern::BG => 1,
            SVBBayerPattern::GR => 2,
            SVBBayerPattern::GB => 3,
        }
    }

    /// The vendor's numeric code for this value.
    pub fn code(&self) -> (r: i32)
        ensures
            r == self.spec_code(),
    {
        match self {
            SVBBayerPattern::RG => 0,
            SVBBayerPattern::BG => 1,
            SVBBayerPattern::GR => 2,
            SVBBayerPattern::GB => 3,
        }
    }

    /// Whether `v` is a code the vendor defines for this enumeration.
    pub open spec fn spec_code_valid(v: int) -> bool {
        v == 0 || v == 1 || v == 2 || v == 3
    }

    /// The value for a vendor code; an undefined code is rejected.
    pub fn from_code(v: i32) -> (r: Option<SVBBayerPattern>)
        ensures
            SVBBayerPattern::spec_code_valid(v as int) <==> r is Some,
            r matches Some(x) ==> x.spec_code() == v,
    {
        match v {
            0 => Some(SVBBayerPattern::RG),
            1 => Some(SVBBayerPattern::BG),
            2 => Some(SVBBayerPattern::GR),
            3 => Some(SVBBayerPattern::GB),
            _ => None,
        }
    }
}
impl SVBBayerPattern {
    /// The two-letter label of this mosaic layout.
    pub open spec fn spec_label(&self) -> Seq<char> {
        match self {
            SVBBayerPattern::RG => "RG"@,
            SVBBayerPattern::BG => "BG"@,
            SVBBayerPattern::GR => "GR"@,
            SVBBayerPattern::GB => "GB"@,
        }
    }

    /// The two-letter label of this mosaic layout.
    pub fn label(&self) -> (r: &'static str)
        ensures
            r@ == self.spec_label(),
    {
        match self {
            SVBBayerPattern::RG => "RG",
            SVBBayerPattern::BG => "BG",
            SVBBayerPattern::GR => "GR",
            SVBBayerPattern::GB => "GB",
        }
    }
}

/// The pixel formats a sensor can stream.
#[derive(Debug, Clone, Copy, PartialEq, Eq, Structural)]
pub enum SVBImageType {
    SVBImageRaw8,
    SVBImageRaw10,
    SVBImageRaw12,
    SVBImageRaw14,
    SVBImageRaw16,
    SVBImageY8,
    SVBImageY10,
    SVBImageY12,
    SVBImageY14,
    SVBImageY16,
    SVBImageRGB24,
    SVBImageRGB32,
    SVBImageEnd,
}

impl SVBImageType {
    /// The vendor's numeric code for this value.
    pub open spec fn spec_code(&self) -> int {
        match self {
            SVBImageType::SVBImageRaw8 => 0,
            SVBImageType::SVBImageRaw10 => 2,
            SVBImageType::SVBImageRaw12 => 3,
            SVBImageType::SVBImageRaw14 => 4,
            SVBImageType::SVBImageRaw16 => 5,
            SVBImageType::SVBImageY8 => 6,
            SVBImageType::SVBImageY10 => 7,
            SVBImageType::SVBImageY12 => 8,
            SVBImageType::SVBImageY14 => 9,
            SVBImageType::SVBImageY16 => 10,
            SVBImageType::SVBImageRGB24 => 11,
            SVBImageType::SVBImageRGB32 => 12,
            SVBImageType::SVBImageEnd => -1,
        }
    }

    /// The vendor's numeric code for this value.
    pub fn code(&self) -> (r: i32)
        ensures
            r == self.spec_code(),
    {
        match self {
            SVBImageType::SVBImageRaw8 => 0,
            SVBImageType::SVBImageRaw10 => 2,
            SVBImageType::SVBImageRaw12 => 3,
            SVBImageType::SVBImageRaw14 => 4,
            SVBImageType::SVBImageRaw16 => 5,
            SVBImageType::SVBImageY8 => 6,
            SVBImageType::SVBImageY10 => 7,
            SVBImageType::SVBImageY12 => 8,
            SVBImageType::SVBImageY14 => 9,
            SVBImageType::SVBImageY16 => 10,
            SVBImageType::SVBImageRGB24 => 11,
            SVBImageType::SVBImageRGB32 => 12,
            SVBImageType::SVBImageEnd => -1,
        }
    }

    /// Whether `v` is a code the vendor defines for this enumeration.
    pub open spec fn spec_code_valid(v: int) -> bool {
        v == 0 || v == 2 || v == 3 || v == 4 || v == 5 || v == 6 || v == 7 || v == 8 || v == 9 || v == 10 || v == 11 || v == 12 || v == -1
    }

    /// The value for a vendor code; an undefined code is rejected.
    pub fn from_code(v: i32) -> (r: Option<SVBImageType>)
        ensures
            SVBImageType::spec_code_valid(v as int) <==> r is Some,
            r matches Some(x) ==> x.spec_code() == v,
    {
        match v {
            0 => Some(SVBImageType::SVBImageRaw8),
            2 => Some(SVBImageType::SVBImageRaw10),
            3 => Some(SVBImageType::SVBImageRaw12),
            4 => Some(SVBImageType::SVBImageRaw14),
            5 => Some(SVBImageType::SVBImageRaw16),
            6 => Some(SVBImageType::SVBImageY8),
            7 => Some(SVBImageType::SVBImageY10),
            8 => Some(SVBImageType::SVBImageY12),
            9 => Some(SVBImageType::SVBImageY14),
            10 => Some(SVBImageType::SVBImageY16),
            11 => Some(SVBImageType::SVBImageRGB24),
            12 => Some(SVBImageType::SVBImageRGB32),
            -1 => Some(SVBImageType::SVBImageEnd),
            _ => None,
        }
    }
}
impl SVBImageType {
    /// The name of this pixel format, as a display summary prints it.
    pub open spec fn spec_label(&self) -> Seq<char> {
        match self {
            SVBImageType::SVBImageRaw8 => "SVBImageRaw8"@,
            SVBImageType::SVBImageRaw10 => "SVBImageRaw10"@,
            SVBImageType::SVBImageRaw12 => "SVBImageRaw12"@,
            SVBImageType::SVBImageRaw14 => "SVBImageRaw14"@,
            SVBImageType::SVBImageRaw16 => "SVBImageRaw16"@,
            SVBImageType::SVBImageY8 => "SVBImageY8"@,
            SVBImageType::SVBImageY10 => "SVBImageY10"@,
            SVBImageType::SVBImageY12 => "SVBImageY12"@,
            SVBImageType::SVBImageY14 => "SVBImageY14"@,
            SVBImageType::SVBImageY16 => "SVBImageY16"@,
            SVBImageType::SVBImageRGB24 => "SVBImageRGB24"@,
            SVBImageType::SVBImageRGB32 => "SVBImageRGB32"@,
            SVBImageType::SVBImageEnd => "SVBImageEnd"@,
        }
    }

    /// The name of this pixel format, as a display summary prints it.
    pub fn label(&self) -> (r: &'static str)
        ensures
            r@ == self.spec_label(),
    {
        match self {
            SVBImageType::SVBImageRaw8 => "SVBImageRaw8",
            SVBImageType::SVBImageRaw10 => "SVBImageRaw10",
            SVBImageType::SVBImageRaw12 => "SVBImageRaw12",
            SVBImageType::SVBImageRaw14 => "SVBImageRaw14",
            SVBImageType::SVBImageRaw16 => "SVBImageRaw16",
            SVBImageType::SVBImageY8 => "SVBImageY8",
            SVBImageType::SVBImageY10 => "SVBImageY10",
            SVBImageType::SVBImageY12 => "SVBImageY12",
            SVBImageType::SVBImageY14 => "SVBImageY14",
            SVBImageType::SVBImageY16 => "SVBImageY16",
            SVBImageType::SVBImageRGB24 => "SVBImageRGB24",
            SVBImageType::SVBImageRGB32 => "SVBImageRGB32",
            SVBImageType::SVBImageEnd => "SVBImageEnd",
        }
    }
}

/// A guiding pulse direction.
#[derive(Debug, Clone, Copy, PartialEq, Eq, Structural)]
pub enum GuideDirection {
    North,
    South,
    East,
    West,
}
/// The sensor readout flip applied by the device.
#[derive(Debug, Clone, Copy, PartialEq, Eq, Structural)]
pub enum FlipStatus {
    NoFlip,
    Horizontal,
    Vertical,
    Both,
}
/// The trigger mode the device captures under.
#[derive(Debug, Clone, Copy, PartialEq, Eq, Structural)]
pub enum SVBCameraMode {
    Normal,
    TrigSoft,
    TrigRiseEdge,
    TrigFallEdge,
    TrigDoubleEdge,
    TrigHighLevel,
    TrigLowLevel,
}

impl SVBCameraMode {
    /// The vendor's numeric code for this value.
    pub open spec fn spec_code(&self) -> int {
        match self {
            SVBCameraMode::Normal => 0,
            SVBCameraMode::TrigSoft => 1,
            SVBCameraMode::TrigRiseEdge => 2,
            SVBCameraMode::TrigFallEdge => 3,
            SVBCameraMode::TrigDoubleEdge => 4,
            SVBCameraMode::TrigHighLevel => 5,
            SVBCameraMode::TrigLowLevel => 6,
        }
    }

    /// The vendor's numeric code for this value.
    pub fn code(&self) -> (r: i32)
        ensures
            r == self.spec_code(),
    {
        match self {
            SVBCameraMode::Normal => 0,
            SVBCameraMode::TrigSoft => 1,
            SVBCameraMode::TrigRiseEdge => 2,
            SVBCameraMode::TrigFallEdge => 3,
            SVBCameraMode::TrigDoubleEdge => 4,
            SVBCameraMode::TrigHighLevel => 5,
            SVBCameraMode::TrigLowLevel => 6,
        }
    }

    /// Whether `v` is a code the vendor defines for this enumeration.
    pub open spec fn spec_code_valid(v: int) -> bool {
        v == 0 || v == 1 || v == 2 || v == 3 || v == 4 || v == 5 || v == 6
    }

    /// The value for a vendor code; an undefined code is rejected.
    pub fn from_code(v: i32) -> (r: Option<SVBCameraMode>)
        ensures
            SVBCameraMode::spec_code_valid(v as int) <==> r is Some,
            r matches Some(x) ==> x.spec_code() == v,
    {
        match v {
            0 => Some(SVBCameraMode::Normal),
            1 => Some(SVBCameraMode::TrigSoft),
            2 => Some(SVBCameraMode::TrigRiseEdge),
            3 => Some(SVBCameraMode::TrigFallEdge),
            4 => Some(SVBCameraMode::TrigDoubleEdge),
            5 => Some(SVBCameraMode::TrigHighLevel),
            6 => Some(SVBCameraMode::TrigLowLevel),
            _ => None,
        }
    }
}
/// The closed set of status codes every driver call returns.
#[derive(Debug, Clone, Copy, PartialEq, Eq, Structural)]
pub enum SVBErrorCode {
    Success,
    InvalidIndex,
    InvalidId,
    InvalidControlType,
    CameraClosed,
    CameraRemoved,
    InvalidPath,
    InvalidFileFormat,
    InvalidSize,
    InvalidImageType,
    OutOfBoundary,
    Timeout,
    InvalidSequence,
    BufferTooSmall,
    VideoModeActive,
    ExposureInProgress,
    GeneralError,
    InvalidMode,
    InvalidDirection,
    UnknownSensorType,
}

impl SVBErrorCode {
    /// The vendor's numeric code for this value.
    pub open spec fn spec_code(&self) -> int {
        match self {
            SVBErrorCode::Success => 0,
            SVBErrorCode::InvalidIndex => 1,
            SVBErrorCode::InvalidId => 2,
            SVBErrorCode::InvalidControlType => 3,
            SVBErrorCode::CameraClosed => 4,
            SVBErrorCode::CameraRemoved => 5,
            SVBErrorCode::InvalidPath => 6,
            SVBErrorCode::InvalidFileFormat => 7,
            SVBErrorCode::InvalidSize => 8,
            SVBErrorCode::InvalidImageType => 9,
            SVBErrorCode::OutOfBoundary => 10,
            SVBErrorCode::Timeout => 11,
            SVBErrorCode::InvalidSequence => 12,
            SVBErrorCode::BufferTooSmall => 13,
            SVBErrorCode::VideoModeActive => 14,
            SVBErrorCode::ExposureInProgress => 15,
            SVBErrorCode::GeneralError => 16,
            SVBErrorCode::InvalidMode => 17,
            SVBErrorCode::InvalidDirection => 18,
            SVBErrorCode::UnknownSensorType => 19,
        }
    }

    /// The vendor's numeric code for this value.
    pub fn code(&self) -> (r: i32)
        ensures
            r == self.spec_code(),
    {
        match self {
            SVBErrorCode::Success => 0,
            SVBErrorCode::InvalidIndex => 1,
            SVBErrorCode::InvalidId => 2,
            SVBErrorCode::InvalidControlType => 3,
            SVBErrorCode::CameraClosed => 4,
            SVBErrorCode::CameraRemoved => 5,
            SVBErrorCode::InvalidPath => 6,
            SVBErrorCode::InvalidFileFormat => 7,
            SVBErrorCode::InvalidSize => 8,
            SVBErrorCode::InvalidImageType => 9,
            SVBErrorCode::OutOfBoundary => 10,
            SVBErrorCode::Timeout => 11,
            SVBErrorCode::InvalidSequence => 12,
            SVBErrorCode::BufferTooSmall => 13,
            SVBErrorCode::VideoModeActive => 14,
            SVBErrorCode::ExposureInProgress => 15,
            SVBErrorCode::GeneralError => 16,
            SVBErrorCode::InvalidMode => 17,
            SVBErrorCode::InvalidDirection => 18,
            SVBErrorCode::UnknownSensorType => 19,
        }
    }

    /// Whether `v` is a code the vendor defines for this enumeration.
    pub open spec fn spec_code_valid(v: int) -> bool {
        v == 0 || v == 1 || v == 2 || v == 3 || v == 4 || v == 5 || v == 6 || v == 7 || v == 8 || v == 9 || v == 10 || v == 11 || v == 12 || v == 13 || v == 14 || v == 15 || v == 16 || v == 17 || v == 18 || v == 19
    }

    /// The value for a vendor code; an undefined code is rejected.
    pub fn from_code(v: i32) -> (r: Option<SVBErrorCode>)
        ensures
            SVBErrorCode::spec_code_valid(v as int) <==> r is Some,
            r matches Some(x) ==> x.spec_code() == v,
    {
        match v {
            0 => Some(SVBErrorCode::Success),
            1 => Some(SVBErrorCode::InvalidIndex),
            2 => Some(SVBErrorCode::InvalidId),
            3 => Some(SVBErrorCode::InvalidControlType),
            4 => Some(SVBErrorCode::CameraClosed),
            5 => Some(SVBErrorCode::CameraRemoved),
            6 => Some(SVBErrorCode::InvalidPath),
            7 => Some(SVBErrorCode::InvalidFileFormat),
            8 => Some(SVBErrorCode::InvalidSize),
            9 => Some(SVBErrorCode::InvalidImageType),
            10 => Some(SVBErrorCode::OutOfBoundary),
            11 => Some(SVBErrorCode::Timeout),
            12 => Some(SVBErrorCode::InvalidSequence),
            13 => Some(SVBErrorCode::BufferTooSmall),
            14 => Some(SVBErrorCode::VideoModeActive),
            15 => Some(SVBErrorCode::ExposureInProgress),
            16 => Some(SVBErrorCode::GeneralError),
            17 => Some(SVBErrorCode::InvalidMode),
            18 => Some(SVBErrorCode::InvalidDirection),
            19 => Some(SVBErrorCode::UnknownSensorType),
            _ => None,
        }
    }
}

impl SVBErrorCode {
    /// The human-readable description of this status code.
    pub open spec fn spec_message(&self) -> Seq<char> {
        match self {
            SVBErrorCode::Success => "Success"@,
            SVBErrorCode::InvalidIndex => "Invalid index"@,
            SVBErrorCode::InvalidId => "Invalid ID"@,
            SVBErrorCode::InvalidControlType => "Invalid control type"@,
            SVBErrorCode::CameraClosed => "Camera closed"@,
            SVBErrorCode::CameraRemoved => "Camera removed"@,
            SVBErrorCode::InvalidPath => "Invalid path"@,
            SVBErrorCode::InvalidFileFormat => "Invalid file format"@,
            SVBErrorCode::InvalidSize => "Invalid size"@,
            SVBErrorCode::InvalidImageType => "Invalid image type"@,
            SVBErrorCode::OutOfBoundary => "Out of boundary"@,
            SVBErrorCode::Timeout => "Timeout"@,
            SVBErrorCode::InvalidSequence => "Invalid sequence"@,
            SVBErrorCode::BufferTooSmall => "Buffer too small"@,
            SVBErrorCode::VideoModeActive => "Video mode active"@,
            SVBErrorCode::ExposureInProgress => "Exposure in progress"@,
            SVBErrorCode::GeneralError => "General error"@,
            SVBErrorCode::InvalidMode => "Invalid mode"@,
            SVBErrorCode::InvalidDirection => "Invalid direction"@,
            SVBErrorCode::UnknownSensorType => "Unknown sensor type"@,
        }
    }

    /// The human-readable description of this status code.
    pub fn message(&self) -> (r: String)
        ensures
            r@ == self.spec_message(),
    {
        match self {
            SVBErrorCode::Success => String::from_str("Success"),
            SVBErrorCode::InvalidIndex => String::from_str("Invalid index"),
            SVBErrorCode::InvalidId => String::from_str("Invalid ID"),
            SVBErrorCode::InvalidControlType => String::from_str("Invalid control type"),
            SVBErrorCode::CameraClosed => String::from_str("Camera closed"),
            SVBErrorCode::CameraRemoved => String::from_str("Camera removed"),
            SVBErrorCode::InvalidPath => String::from_str("Invalid path"),
            SVBErrorCode::InvalidFileFormat => String::from_str("Invalid file format"),
            SVBErrorCode::InvalidSize => String::from_str("Invalid size"),
            SVBErrorCode::InvalidImageType => String::from_str("Invalid image type"),
            SVBErrorCode::OutOfBoundary => String::from_str("Out of boundary"),
            SVBErrorCode::Timeout => String::from_str("Timeout"),
            SVBErrorCode::InvalidSequence => String::from_str("Invalid sequence"),
            SVBErrorCode::BufferTooSmall => String::from_str("Buffer too small"),
            SVBErrorCode::VideoModeActive => String::from_str("Video mode active"),
            SVBErrorCode::ExposureInProgress => String::from_str("Exposure in progress"),
            SVBErrorCode::GeneralError => String::from_str("General error"),
            SVBErrorCode::InvalidMode => String::from_str("Invalid mode"),
            SVBErrorCode::InvalidDirection => String::from_str("Invalid direction"),
            SVBErrorCode::UnknownSensorType => String::from_str("Unknown sensor type"),
        }
    }
}

/// The camera-interface error wrapping a vendor status code: `Other`,
/// carrying the code's description.
pub fn camera_error_from_svb(e: &SVBErrorCode) -> (r: CameraError)
    ensures
        r matches CameraError::Other(s) && s@ == e.spec_message(),
{
    CameraError::Other(e.message())
}
/// The vendor's boolean encoding.
#[derive(Debug, Clone, Copy, PartialEq, Eq, Structural)]
pub enum SVBBool {
    SVBFalse,
    SVBTrue,
}

impl SVBBool {
    /// The vendor's numeric code for this value.
    pub open spec fn spec_code(&self) -> int {
        match self {
            SVBBool::SVBFalse => 0,
            SVBBool::SVBTrue => 1,
        }
    }

    /// The vendor's numeric code for this value.
    pub fn code(&self) -> (r: i32)
        ensures
            r == self.spec_code(),
    {
        match self {
            SVBBool::SVBFalse => 0,
            SVBBool::SVBTrue => 1,
        }
    }

    /// Whether `v` is a code the vendor defines for this enumeration.
    pub open spec fn spec_code_valid(v: int) -> bool {
        v == 0 || v == 1
    }

    /// The value for a vendor code; an undefined code is rejected.
    pub fn from_code(v: i32) -> (r: Option<SVBBool>)
        ensures
            SVBBool::spec_code_valid(v as int) <==> r is Some,
            r matches Some(x) ==> x.spec_code() == v,
    {
        match v {
            0 => Some(SVBBool::SVBFalse),
            1 => Some(SVBBool::SVBTrue),
            _ => None,
        }
    }
}

impl SVBBool {
    /// The vendor boolean as a native one.
    pub fn to_bool(&self) -> (r: bool)
        ensures
            r == (*self == SVBBool::SVBTrue),
    {
        match self {
            SVBBool::SVBFalse => false,
            SVBBool::SVBTrue => true,
        }
    }
}
/// The integer-valued controls a device may expose.
#[derive(Debug, Clone, Copy, PartialEq, Eq, Structural)]
pub enum SVBControlType {
    SVBGain,
    SVBExposure,
    SVBGamma,
    SVBGammaContrast,
    SVBWbRed,
    SVBWbGreen,
    SVBWbBlue,
    SVBFlip,
    SVBFrameSpeedMode,
    SVBContrast,
    SVBSharpness,
    SVBSaturation,
    SVBAutoTargetBrightness,
    SVBBlackLevel,
    SVBCoolerEnable,
    SVBTargetTemperature,
    SVBCurrentTemperature,
    SVBCoolerPower,
    SVBBadPixelCorrectionEnable,
    SVBBadPixelCorrectionThreshold,
}

impl SVBControlType {
    /// The vendor's numeric code for this value.
    pub open spec fn spec_code(&self) -> int {
        match self {
            SVBControlType::SVBGain => 0,
            SVBControlType::SVBExposure => 1,
            SVBControlType::SVBGamma => 2,
            SVBControlType::SVBGammaContrast => 3,
            SVBControlType::SVBWbRed => 4,
            SVBControlType::SVBWbGreen => 5,
            SVBControlType::SVBWbBlue => 6,
            SVBControlType::SVBFlip => 7,
            SVBControlType::SVBFrameSpeedMode => 8,
            SVBControlType::SVBContrast => 9,
            SVBControlType::SVBSharpness => 10,
            SVBControlType::SVBSaturation => 11,
            SVBControlType::SVBAutoTargetBrightness => 12,
            SVBControlType::SVBBlackLevel => 13,
            SVBControlType::SVBCoolerEnable => 14,
            SVBControlType::SVBTargetTemperature => 15,
            SVBControlType::SVBCurrentTemperature => 16,
            SVBControlType::SVBCoolerPower => 17,
            SVBControlType::SVBBadPixelCorrectionEnable => 18,
            SVBControlType::SVBBadPixelCorrectionThreshold => 19,
        }
    }

    /// The vendor's numeric code for this value.
    pub fn code(&self) -> (r: i32)
        ensures
            r == self.spec_code(),
    {
        match self {
            SVBControlType::SVBGain => 0,
            SVBControlType::SVBExposure => 1,
            SVBControlType::SVBGamma => 2,
            SVBControlType::SVBGammaContrast => 3,
            SVBControlType::SVBWbRed => 4,
            SVBControlType::SVBWbGreen => 5,
            SVBControlType::SVBWbBlue => 6,
            SVBControlType::SVBFlip => 7,
            SVBControlType::SVBFrameSpeedMode => 8,
            SVBControlType::SVBContrast => 9,
            SVBControlType::SVBSharpness => 10,
            SVBControlType::SVBSaturation => 11,
            SVBControlType::SVBAutoTargetBrightness => 12,
            SVBControlType::SVBBlackLevel => 13,
            SVBControlType::SVBCoolerEnable => 14,
            SVBControlType::SVBTargetTemperature => 15,
            SVBControlType::SVBCurrentTemperature => 16,
            SVBControlType::SVBCoolerPower => 17,
            SVBControlType::SVBBadPixelCorrectionEnable => 18,
            SVBControlType::SVBBadPixelCorrectionThreshold => 19,
        }
    }

    /// Whether `v` is a code the vendor defines for this enumeration.
    pub open spec fn spec_code_valid(v: int) -> bool {
        v == 0 || v == 1 || v == 2 || v == 3 || v == 4 || v == 5 || v == 6 || v == 7 || v == 8 || v == 9 || v == 10 || v == 11 || v == 12 || v == 13 || v == 14 || v == 15 || v == 16 || v == 17 || v == 18 || v == 19
    }

    /// The value for a vendor code; an undefined code is rejected.
    pub fn from_code(v: i32) -> (r: Option<SVBControlType>)
        ensures
            SVBControlType::spec_code_valid(v as int) <==> r is Some,
            r matches Some(x) ==> x.spec_code() == v,
    {
        match v {
            0 => Some(SVBControlType::SVBGain),
            1 => Some(SVBControlType::SVBExposure),
            2 => Some(SVBControlType::SVBGamma),
            3 => Some(SVBControlType::SVBGammaContrast),
            4 => Some(SVBControlType::SVBWbRed),
            5 => Some(SVBControlType::SVBWbGreen),
            6 => Some(SVBControlType::SVBWbBlue),
            7 => Some(SVBControlType::SVBFlip),
            8 => Some(SVBControlType::SVBFrameSpeedMode),
            9 => Some(SVBControlType::SVBContrast),
            10 => Some(SVBControlType::SVBSharpness),
            11 => Some(SVBControlType::SVBSaturation),
            12 => Some(SVBControlType::SVBAutoTargetBrightness),
            13 => Some(SVBControlType::SVBBlackLevel),
            14 => Some(SVBControlType::SVBCoolerEnable),
            15 => Some(SVBControlType::SVBTargetTemperature),
            16 => Some(SVBControlType::SVBCurrentTemperature),
            17 => Some(SVBControlType::SVBCoolerPower),
            18 => Some(SVBControlType::SVBBadPixelCorrectionEnable),
            19 => Some(SVBControlType::SVBBadPixelCorrectionThreshold),
            _ => None,
        }
    }
}
/// The progress of a single exposure.
#[derive(Debug, Clone, Copy, PartialEq, Eq, Structural)]
pub enum SVBExposureStatus {
    SVBExposureIdle,
    SVBExposureInProgress,
    SVBExposureSuccess,
    SVBExposureFailed,
}

} // verus!
