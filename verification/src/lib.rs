//! Frame acquisition and monochrome image processing for camera backends.
//!
//! The crate models camera frames as rectangular buffers of pixel elements,
//! generic over the element width, and provides elementwise arithmetic,
//! windowed statistics, and colormap tone mapping over them, together with
//! the capability-based camera interface and the acquisition state machines
//! that produce such frames.

pub mod camera;
pub mod cameraframe;
pub mod colormap;
pub mod framedata;
pub mod mono_cast;
pub mod mono_ops;
pub mod mono_stats;
pub mod pixel;
pub mod sim;
pub mod svbony;
pub mod svbony_types;
pub mod text;

pub use camera::Camera;
pub use camera::CameraError;
pub use cameraframe::CameraFrame;
pub use cameraframe::CameraFrameType;
pub use sim::SimCamera;

pub use framedata::FrameData;
pub use framedata::MonoFrameData;
pub use pixel::MonoPixel;
pub use pixel::Pixel;
pub use pixel::PixelType;
