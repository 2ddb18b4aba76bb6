//! One acquired or synthesized frame: its pixel bytes, dimensions, pixel
//! layout, exposure, and timestamp; and the tagged union over typed frames
//! used where the concrete pixel layout is only known at runtime.

use vstd::prelude::*;
use crate::framedata::FrameData;
use crate::mono_cast::bytes_to_mono16_le;
use crate::pixel::PixelType;

verus! {

/// The byte size of one element of the given pixel layout.
pub open spec fn spec_pixel_size(pt: PixelType) -> int {
    match pt {
        PixelType::Gray8 => 1,
        PixelType::Gray16 => 2,
        PixelType::Rgb8 => 3,
        PixelType::Rgb16 => 6,
        PixelType::Rgba8 => 4,
        PixelType::Rgba16 => 8,
    }
}

/// The byte size of one element of the given pixel layout.
pub fn pixel_size(pt: PixelType) -> (r: usize)
    ensures
        r == spec_pixel_size(pt),
{
    match pt {
        PixelType::Gray8 => 1,
        PixelType::Gray16 => 2,
        PixelType::Rgb8 => 3,
        PixelType::Rgb16 => 6,
        PixelType::Rgba8 => 4,
        PixelType::Rgba16 => 8,
    }
}

/// The number of color channels of the given pixel layout, as a file
/// exporter needs it to pick a color type.
pub open spec fn spec_channel_count(pt: PixelType) -> int {
    match pt {
        PixelType::Gray8 => 1,
        PixelType::Gray16 => 1,
        PixelType::Rgb8 => 3,
        PixelType::Rgb16 => 3,
        PixelType::Rgba8 => 4,
        PixelType::Rgba16 => 4,
    }
}

/// The number of color channels of the given pixel layout.
pub fn channel_count(pt: PixelType) -> (r: usize)
    ensures
        r == spec_channel_count(pt),
{
    match pt {
        PixelType::Gray8 => 1,
        PixelType::Gray16 => 1,
        PixelType::Rgb8 => 3,
        PixelType::Rgb16 => 3,
        PixelType::Rgba8 => 4,
        PixelType::Rgba16 => 4,
    }
}

/// The bits per sample of the given pixel layout, as a file exporter needs
/// it to pick a bit depth.
pub open spec fn spec_sample_bits(pt: PixelType) -> int {
    match pt {
        PixelType::Gray8 => 8,
        PixelType::Gray16 => 16,
        PixelType::Rgb8 => 8,
        PixelType::Rgb16 => 16,
        PixelType::Rgba8 => 8,
        PixelType::Rgba16 => 16,
    }
}

/// The bits per sample of the given pixel layout.
pub fn sample_bits(pt: PixelType) -> (r: u8)
    ensures
        r == spec_sample_bits(pt),
{
    match pt {
        PixelType::Gray8 => 8,
        PixelType::Gray16 => 16,
        PixelType::Rgb8 => 8,
        PixelType::Rgb16 => 16,
        PixelType::Rgba8 => 8,
        PixelType::Rgba16 => 16,
    }
}

/// One acquired or synthesized image: raw pixel bytes tagged with their
/// layout, together with the exposure time in microseconds, the UTC
/// timestamp of the center of integration in Unix milliseconds, and the
/// sensor bit depth. Immutable after construction; transformations produce
/// new frames.
#[derive(Clone)]
pub struct CameraFrame {
    pub exposure_us: u64,
    pub timestamp_ms: i64,
    pub pixeltype: PixelType,
    pub bit_depth: Option<u8>,
    pub data: Vec<u8>,
    pub width: usize,
    pub height: usize,
}

impl CameraFrame {
    /// Well-formedness: the byte count matches the dimensions and the
    /// pixel layout.
    pub open spec fn wf(&self) -> bool {
        self.data@.len() == self.width as int * self.height as int * spec_pixel_size(
            self.pixeltype,
        )
    }

    /// A frame from its parts; the byte count must match the dimensions
    /// and the pixel layout.
    pub fn new(
        exposure_us: u64,
        timestamp_ms: i64,
        pixeltype: PixelType,
        bit_depth: Option<u8>,
        data: Vec<u8>,
        width: usize,
        height: usize,
    ) -> (r: CameraFrame)
        requires
            data@.len() == width as int * height as int * spec_pixel_size(pixeltype),
        ensures
            r.wf(),
            r.exposure_us == exposure_us,
            r.timestamp_ms == timestamp_ms,
            r.pixeltype == pixeltype,
            r.bit_depth == bit_depth,
            r.data == data,
            r.width == width,
            r.height == height,
    {
        CameraFrame { exposure_us, timestamp_ms, pixeltype, bit_depth, data, width, height }
    }

    /// The frame's pixels as an 8-bit monochrome buffer, byte for byte;
    /// rejected unless the frame is 8-bit monochrome with dimensions a
    /// buffer can carry.
    pub fn mono8_buffer(&self) -> (r: Option<FrameData<u8>>)
        requires
            self.wf(),
        ensures
            self.pixeltype == PixelType::Gray8 && self.width <= u32::MAX && self.height
                <= u32::MAX ==> (r matches Some(b) && b.wf() && b.width == self.width && b.height
                == self.height && b.data@ == self.data@),
            !(self.pixeltype == PixelType::Gray8 && self.width <= u32::MAX && self.height
                <= u32::MAX) ==> r is None,
    {
        if !matches!(self.pixeltype, PixelType::Gray8) {
            return None;
        }
        if self.width > u32::MAX as usize || self.height > u32::MAX as usize {
            return None;
        }
        Some(
            FrameData {
                width: self.width as u32,
                height: self.height as u32,
                data: self.data.clone(),
            },
        )
    }

    /// The frame's pixels as a 16-bit monochrome buffer, two little-endian
    /// bytes per element; rejected unless the frame is 16-bit monochrome
    /// with dimensions a buffer can carry.
    pub fn mono16_buffer(&self) -> (r: Option<FrameData<u16>>)
        requires
            self.wf(),
        ensures
            self.pixeltype == PixelType::Gray16 && self.width <= u32::MAX && self.height
                <= u32::MAX ==> (r matches Some(b) && b.wf() && b.width == self.width && b.height
                == self.height && forall|i: int|
                0 <= i < b.data@.len() ==> #[trigger] b.px(i) == self.data@[2 * i] + 256
                    * self.data@[2 * i + 1]),
            !(self.pixeltype == PixelType::Gray16 && self.width <= u32::MAX && self.height
                <= u32::MAX) ==> r is None,
    {
        if !matches!(self.pixeltype, PixelType::Gray16) {
            return None;
        }
        if self.width > u32::MAX as usize || self.height > u32::MAX as usize {
            return None;
        }
        proof {
            vstd::arithmetic::div_mod::lemma_div_by_multiple(
                self.width as int * self.height as int,
                2,
            );
            vstd::arithmetic::div_mod::lemma_mod_multiples_basic(
                self.width as int * self.height as int,
                2,
            );
        }
        let words = match bytes_to_mono16_le(&self.data) {
            Some(w) => w,
            None => {
                return None;
            },
        };
        Some(FrameData { width: self.width as u32, height: self.height as u32, data: words })
    }
}

/// Relies on chrono::Utc::now, read out with DateTime::timestamp_millis:
/// the current UTC wall-clock time in Unix milliseconds. The result depends
/// on the clock, so nothing is promised of it. chrono's `now` panics by its
/// own `expect` on a system clock set before the Unix epoch (or absurdly
/// far after it); the platforms this library targets reject such settings,
/// so the path is unreachable there.
#[verifier::external_body]
fn now_timestamp_ms() -> i64 {
    chrono::Utc::now().timestamp_millis()
}

impl Default for CameraFrame {
    /// An empty 8-bit monochrome frame stamped with the current time.
    fn default() -> (r: CameraFrame)
        ensures
            r.wf(),
            r.exposure_us == 0,
            r.pixeltype == PixelType::Gray8,
            r.bit_depth is None,
            r.data@.len() == 0,
            r.width == 0,
            r.height == 0,
    {
        CameraFrame {
            exposure_us: 0,
            timestamp_ms: now_timestamp_ms(),
            pixeltype: PixelType::Gray8,
            bit_depth: None,
            data: Vec::new(),
            width: 0,
            height: 0,
        }
    }
}

/// The tagged union over typed frames, used at the camera interface
/// boundary where the concrete pixel layout is decided at runtime by the
/// backend; a consumer dispatches by matching on the tag.
pub enum CameraFrameType {
    Mono8(CameraFrame),
    Mono16(CameraFrame),
    RGB8(CameraFrame),
    RGBA8(CameraFrame),
}

impl CameraFrameType {
    /// Well-formedness: the frame is well formed and its layout matches
    /// the tag.
    pub open spec fn wf(&self) -> bool {
        match self {
            CameraFrameType::Mono8(f) => f.wf() && f.pixeltype == PixelType::Gray8,
            CameraFrameType::Mono16(f) => f.wf() && f.pixeltype == PixelType::Gray16,
            CameraFrameType::RGB8(f) => f.wf() && f.pixeltype == PixelType::Rgb8,
            CameraFrameType::RGBA8(f) => f.wf() && f.pixeltype == PixelType::Rgba8,
        }
    }

    /// The tag for a frame, decided by the frame's own pixel layout; the
    /// two 16-bit color layouts have no variant and are rejected.
    pub fn from_frame(frame: CameraFrame) -> (r: Option<CameraFrameType>)
        requires
            frame.wf(),
        ensures
            frame.pixeltype == PixelType::Gray8 ==> (r matches Some(t) && t
                == CameraFrameType::Mono8(frame)),
            frame.pixeltype == PixelType::Gray16 ==> (r matches Some(t) && t
                == CameraFrameType::Mono16(frame)),
            frame.pixeltype == PixelType::Rgb8 ==> (r matches Some(t) && t
                == CameraFrameType::RGB8(frame)),
            frame.pixeltype == PixelType::Rgba8 ==> (r matches Some(t) && t
                == CameraFrameType::RGBA8(frame)),
            frame.pixeltype == PixelType::Rgb16 || frame.pixeltype == PixelType::Rgba16
                ==> r is None,
            r matches Some(t) ==> t.wf(),
    {
        match frame.pixeltype {
            PixelType::Gray8 => Some(CameraFrameType::Mono8(frame)),
            PixelType::Gray16 => Some(CameraFrameType::Mono16(frame)),
            PixelType::Rgb8 => Some(CameraFrameType::RGB8(frame)),
            PixelType::Rgba8 => Some(CameraFrameType::RGBA8(frame)),
            PixelType::Rgb16 => None,
            PixelType::Rgba16 => None,
        }
    }

    /// The frame behind the tag.
    pub fn frame(&self) -> (r: &CameraFrame)
        ensures
            *r == self.spec_frame(),
    {
        match self {
            CameraFrameType::Mono8(f) => f,
            CameraFrameType::Mono16(f) => f,
            CameraFrameType::RGB8(f) => f,
            CameraFrameType::RGBA8(f) => f,
        }
    }

    /// The frame behind the tag.
    pub open spec fn spec_frame(&self) -> CameraFrame {
        match self {
            CameraFrameType::Mono8(f) => *f,
            CameraFrameType::Mono16(f) => *f,
            CameraFrameType::RGB8(f) => *f,
            CameraFrameType::RGBA8(f) => *f,
        }
    }
}

} // verus!
