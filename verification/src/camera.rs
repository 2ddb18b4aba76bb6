//! The camera capability interface: the error taxonomy and the polymorphic
//! contract every backend implements. Every operation defaults to signaling
//! "not supported", so a concrete backend overrides only the subset of
//! capabilities it genuinely has.

use vstd::prelude::*;
use vstd::string::StringExecFns;

verus! {

/// The error taxonomy. `NotSupported` is structural — the capability is
/// absent from the backend — and is never a runtime failure; `Other` wraps
/// an underlying collaborator error with its description.
#[derive(Debug, Clone)]
pub enum CameraError {
    Connection,
    Config,
    Read,
    Write,
    NotSupported,
    Other(String),
}

impl CameraError {
    /// The human-readable description of this error.
    pub open spec fn spec_message(&self) -> Seq<char> {
        match self {
            CameraError::Connection => "Connection error"@,
            CameraError::Config => "Configuration error"@,
            CameraError::Read => "Read error"@,
            CameraError::Write => "Write error"@,
            CameraError::NotSupported => "Function not supported for this camera"@,
            CameraError::Other(s) => "Error: "@ + s@,
        }
    }

    /// The human-readable description of this error.
    pub fn message(&self) -> (r: String)
        ensures
            r@ == self.spec_message(),
    {
        match self {
            CameraError::Connection => String::from_str("Connection error"),
            CameraError::Config => String::from_str("Configuration error"),
            CameraError::Read => String::from_str("Read error"),
            CameraError::Write => String::from_str("Write error"),
            CameraError::NotSupported => String::from_str(
                "Function not supported for this camera",
            ),
            CameraError::Other(s) => {
                let mut r = String::from_str("Error: ");
                r.append(s.as_str());
                r
            },
        }
    }
}

/// The polymorphic capability contract every camera backend implements.
///
/// Exposure times are in microseconds. Every operation other than `name`
/// has a default behavior of returning `Err(CameraError::NotSupported)`;
/// a backend overrides only what it implements, and a `NotSupported`
/// result must never be conflated with a runtime failure.
pub trait Camera {
    /// The backend's display name.
    fn name(&self) -> String;

    /// Connect to the device. Default: not supported.
    fn connect(&mut self) -> (r: Result<(), CameraError>)
        default_ensures
            r matches Err(e) && e matches CameraError::NotSupported,
    {
        Err(CameraError::NotSupported)
    }

    /// Disconnect from the device. Default: not supported.
    fn disconnect(&mut self) -> (r: Result<(), CameraError>)
        default_ensures
            r matches Err(e) && e matches CameraError::NotSupported,
    {
        Err(CameraError::NotSupported)
    }

    /// Set the exposure time in microseconds. Default: not supported.
    fn set_exposure(&mut self, _exposure_us: u64) -> (r: Result<(), CameraError>)
        default_ensures
            r matches Err(e) && e matches CameraError::NotSupported,
    {
        Err(CameraError::NotSupported)
    }

    /// The exposure time in microseconds. Default: not supported.
    fn get_exposure(&self) -> (r: Result<u64, CameraError>)
        default_ensures
            r matches Err(e) && e matches CameraError::NotSupported,
    {
        Err(CameraError::NotSupported)
    }

    /// The exposure limits in microseconds, least first. Default: not
    /// supported.
    fn get_exposure_limits(&self) -> (r: Result<(u64, u64), CameraError>)
        default_ensures
            r matches Err(e) && e matches CameraError::NotSupported,
    {
        Err(CameraError::NotSupported)
    }

    /// Set the gain. Default: not supported.
    fn set_gain(&mut self, _gain: i64) -> (r: Result<(), CameraError>)
        default_ensures
            r matches Err(e) && e matches CameraError::NotSupported,
    {
        Err(CameraError::NotSupported)
    }

    /// The gain. Default: not supported.
    fn get_gain(&self) -> (r: Result<i64, CameraError>)
        default_ensures
            r matches Err(e) && e matches CameraError::NotSupported,
    {
        Err(CameraError::NotSupported)
    }

    /// The current region of interest as `(x, y, width, height)`. Default:
    /// not supported.
    fn get_roi(&self) -> (r: Result<(u32, u32, u32, u32), CameraError>)
        default_ensures
            r matches Err(e) && e matches CameraError::NotSupported,
    {
        Err(CameraError::NotSupported)
    }

    /// Set the region of interest. Default: not supported.
    fn set_roi(&mut self, _x: u32, _y: u32, _width: u32, _height: u32) -> (r: Result<(), CameraError>)
        default_ensures
            r matches Err(e) && e matches CameraError::NotSupported,
    {
        Err(CameraError::NotSupported)
    }

    /// The largest selectable region of interest. Default: not supported.
    fn get_max_roi(&self) -> (r: Result<(u32, u32, u32, u32), CameraError>)
        default_ensures
            r matches Err(e) && e matches CameraError::NotSupported,
    {
        Err(CameraError::NotSupported)
    }

    /// Begin acquisition. Default: not supported.
    fn start(&mut self) -> (r: Result<(), CameraError>)
        default_ensures
            r matches Err(e) && e matches CameraError::NotSupported,
    {
        Err(CameraError::NotSupported)
    }

    /// End acquisition. Default: not supported.
    fn stop(&mut self) -> (r: Result<(), CameraError>)
        default_ensures
            r matches Err(e) && e matches CameraError::NotSupported,
    {
        Err(CameraError::NotSupported)
    }
}

} // verus!
