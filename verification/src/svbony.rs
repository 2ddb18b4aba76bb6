//! The hardware camera backend's configuration model and the per-cycle
//! decisions of its acquisition loop: which buffer width a frame needs,
//! how long a readout may block, and which control descriptor answers a
//! query. Device I/O itself is the driver collaborator's part.

use vstd::prelude::*;
use vstd::string::StringExecFns;
use crate::camera::CameraError;
use crate::svbony_types::SVBBayerPattern;
use crate::svbony_types::SVBControlType;
use crate::svbony_types::SVBImageType;

verus! {

/// The identity a connected device reports: its numeric handle and its
/// display strings.
#[derive(Debug, Clone)]
pub struct SVBCameraInfo {
    pub camera_id: i32,
    pub friendly_name: String,
    pub serial_number: String,
    pub port_type: String,
}

/// The static capability descriptor a device reports.
#[derive(Debug, Clone)]
pub struct SVBCameraProperty {
    pub max_width: i32,
    pub max_height: i32,
    pub is_color_cam: bool,
    pub bayer_pattern: SVBBayerPattern,
    pub supported_bins: Vec<i32>,
    pub supported_video_format: Vec<SVBImageType>,
}

/// The descriptor of one integer-valued control: its value range and
/// default, and whether it can be automated or written.
#[derive(Debug, Clone)]
pub struct SVBControlCaps {
    pub name: String,
    pub description: String,
    pub max_value: i64,
    pub min_value: i64,
    pub default_value: i64,
    pub is_auto_supported: bool,
    pub is_writable: bool,
    pub control_type: SVBControlType,
}

/// A bracketed, comma-separated list of pixel-format names, without the
/// brackets.
pub open spec fn spec_format_list_items(s: Seq<SVBImageType>) -> Seq<char>
    decreases s.len(),
{
    if s.len() == 0 {
        Seq::<char>::empty()
    } else if s.len() == 1 {
        s[0].spec_label()
    } else {
        spec_format_list_items(s.drop_last()) + ", "@ + s.last().spec_label()
    }
}

/// A bracketed, comma-separated list of pixel-format names.
pub open spec fn spec_format_list(s: Seq<SVBImageType>) -> Seq<char> {
    "["@ + spec_format_list_items(s) + "]"@
}

/// The bracketed, comma-separated rendering of a list of pixel formats.
pub fn format_list_string(v: &Vec<SVBImageType>) -> (r: String)
    ensures
        r@ == spec_format_list(v@),
{
    let mut s = String::from_str("[");
    let n: usize = v.len();
    let mut i: usize = 0;
    while i < n
        invariant
            n == v@.len(),
            i <= n,
            s@ == "["@ + spec_format_list_items(v@.take(i as int)),
        decreases n - i,
    {
        if i > 0 {
            s.append(", ");
        }
        s.append(v[i].label());
        proof {
            assert(v@.take(i as int + 1).drop_last() =~= v@.take(i as int));
            assert(v@.take(i as int + 1).last() == v@[i as int]);
            assert(s@ =~= "["@ + spec_format_list_items(v@.take(i as int + 1)));
        }
        i = i + 1;
    }
    s.append("]");
    proof {
        assert(v@.take(n as int) =~= v@);
        assert(s@ =~= spec_format_list(v@));
    }
    s
}

/// The first control descriptor of the given type in a capability list, if
/// any.
pub open spec fn spec_find_control(s: Seq<SVBControlCaps>, ctrl: SVBControlType) -> Option<
    SVBControlCaps,
>
    decreases s.len(),
{
    if s.len() == 0 {
        None
    } else if s[0].control_type == ctrl {
        Some(s[0])
    } else {
        spec_find_control(s.drop_first(), ctrl)
    }
}

/// The hardware camera's configuration: the open device's handle, the
/// identity and capability descriptors read at open time, and the running
/// flag of its acquisition loop. The driver connection behind the handle
/// is the embedder's to manage.
#[derive(Clone)]
pub struct SVBonyCamera {
    pub id: i32,
    pub info: SVBCameraInfo,
    pub property: SVBCameraProperty,
    pub capabilities: Vec<SVBControlCaps>,
    pub running: bool,
}

impl SVBonyCamera {
    /// A camera from the descriptors the driver reported at open time.
    pub fn from_parts(
        id: i32,
        info: SVBCameraInfo,
        property: SVBCameraProperty,
        capabilities: Vec<SVBControlCaps>,
    ) -> (r: SVBonyCamera)
        ensures
            r.id == id,
            r.info == info,
            r.property == property,
            r.capabilities == capabilities,
            !r.running,
    {
        SVBonyCamera { id, info, property, capabilities, running: false }
    }

    /// The identity descriptor read at open time.
    pub fn get_info(&self) -> (r: &SVBCameraInfo)
        ensures
            *r == self.info,
    {
        &self.info
    }

    /// The capability descriptor read at open time.
    pub fn get_properties(&self) -> (r: &SVBCameraProperty)
        ensures
            *r == self.property,
    {
        &self.property
    }

    /// The sensor's full width in pixels.
    pub fn max_width(&self) -> (r: i32)
        ensures
            r == self.property.max_width,
    {
        self.property.max_width
    }

    /// The sensor's full height in pixels.
    pub fn max_height(&self) -> (r: i32)
        ensures
            r == self.property.max_height,
    {
        self.property.max_height
    }

    /// Whether the sensor is color rather than monochrome.
    pub fn is_color_cam(&self) -> (r: bool)
        ensures
            r == self.property.is_color_cam,
    {
        self.property.is_color_cam
    }

    /// The Bayer mosaic layout; meaningful only for a color sensor.
    pub fn bayer_pattern(&self) -> (r: SVBBayerPattern)
        ensures
            r == self.property.bayer_pattern,
    {
        self.property.bayer_pattern.clone()
    }

    /// The pixel binning factors the sensor supports.
    pub fn supported_bins(&self) -> (r: Vec<i32>)
        ensures
            r@ == self.property.supported_bins@,
    {
        self.property.supported_bins.clone()
    }

    /// The pixel formats the sensor can stream.
    pub fn supported_video_formats(&self) -> (r: Vec<SVBImageType>)
        ensures
            r@ == self.property.supported_video_format@,
    {
        self.property.supported_video_format.clone()
    }

    /// The descriptor of the given control, or a descriptive error where
    /// the device does not expose it.
    pub fn get_control_info(&self, ctrl: &SVBControlType) -> (r: Result<
        &SVBControlCaps,
        CameraError,
    >)
        ensures
            spec_find_control(self.capabilities@, *ctrl) matches Some(c) ==> (r matches Ok(x) && *x
                == c),
            spec_find_control(self.capabilities@, *ctrl) is None ==> (r matches Err(e) && e
                matches CameraError::Other(s) && s@ == "Control not found"@),
    {
        proof {
            assert(self.capabilities@.skip(0) =~= self.capabilities@);
        }
        let n: usize = self.capabilities.len();
        let mut i: usize = 0;
        while i < n
            invariant
                n == self.capabilities@.len(),
                i <= n,
                spec_find_control(self.capabilities@, *ctrl) == spec_find_control(
                    self.capabilities@.skip(i as int),
                    *ctrl,
                ),
            decreases n - i,
        {
            proof {
                assert(self.capabilities@.skip(i as int)[0] == self.capabilities@[i as int]);
                assert(self.capabilities@.skip(i as int).drop_first() =~= self.capabilities@.skip(
                    i as int + 1,
                ));
            }
            if self.capabilities[i].control_type == *ctrl {
                return Ok(&self.capabilities[i]);
            }
            i = i + 1;
        }
        proof {
            assert(self.capabilities@.skip(n as int) =~= Seq::<SVBControlCaps>::empty());
        }
        Err(CameraError::Other(String::from_str("Control not found")))
    }

    /// The backend's display name: the device's friendly name.
    pub fn name(&self) -> (r: String)
        ensures
            r@ == self.info.friendly_name@,
    {
        self.info.friendly_name.clone()
    }

    /// The camera's display summary, one property per line. The pixel
    /// pitch, a floating-point property of the driver, has no line here.
    pub open spec fn spec_summary(&self) -> Seq<char> {
        let head = "SVBonyCamera\n    Name: "@ + self.info.friendly_name@
            + "\n    Serial Number: "@ + self.info.serial_number@ + "\n    Port Type: "@
            + self.info.port_type@ + "\n    Format: "@ + crate::text::spec_decimal(
            self.property.max_width as int,
        ) + " x "@ + crate::text::spec_decimal(self.property.max_height as int)
            + "\n    Color: "@ + (if self.property.is_color_cam {
            "true"@
        } else {
            "false"@
        }) + "\n"@;
        let bayer = if self.property.is_color_cam {
            "    Bayer Pattern: "@ + self.property.bayer_pattern.spec_label() + "\n"@
        } else {
            Seq::<char>::empty()
        };
        head + bayer + "    Supported Bins: "@ + crate::text::spec_signed_list(
            self.property.supported_bins@,
        ) + "\n    Supported Video Formats: "@ + spec_format_list(
            self.property.supported_video_format@,
        ) + "\n"@
    }

    /// The camera's display summary, one property per line.
    pub fn summary(&self) -> (r: String)
        requires
            0 <= self.property.max_width,
            0 <= self.property.max_height,
        ensures
            r@ == self.spec_summary(),
    {
        let mut s = String::from_str("SVBonyCamera\n    Name: ");
        s.append(self.info.friendly_name.as_str());
        s.append("\n    Serial Number: ");
        s.append(self.info.serial_number.as_str());
        s.append("\n    Port Type: ");
        s.append(self.info.port_type.as_str());
        s.append("\n    Format: ");
        let w = crate::text::u32_to_decimal(self.property.max_width as u32);
        s.append(w.as_str());
        s.append(" x ");
        let h = crate::text::u32_to_decimal(self.property.max_height as u32);
        s.append(h.as_str());
        s.append("\n    Color: ");
        if self.property.is_color_cam {
            s.append("true");
        } else {
            s.append("false");
        }
        s.append("\n");
        if self.property.is_color_cam {
            s.append("    Bayer Pattern: ");
            s.append(self.property.bayer_pattern.label());
            s.append("\n");
        }
        s.append("    Supported Bins: ");
        let bins = crate::text::i32_list_string(&self.property.supported_bins);
        s.append(bins.as_str());
        s.append("\n    Supported Video Formats: ");
        let formats = format_list_string(&self.property.supported_video_format);
        s.append(formats.as_str());
        s.append("\n");
        proof {
            assert(s@ =~= self.spec_summary());
        }
        s
    }

    /// Whether the acquisition loop is running.
    pub fn is_running(&self) -> (r: bool)
        ensures
            r == self.running,
    {
        self.running
    }

    /// Running to Idle: clear the running flag; the acquisition loop
    /// observes it at the head of the next cycle and exits.
    pub fn stop(&mut self)
        ensures
            *final(self) == (SVBonyCamera { running: false, ..*old(self) }),
    {
        self.running = false;
    }

    /// Idle to Running: set the running flag for a new acquisition loop. A
    /// start while already Running is rejected with a `Config` error and
    /// changes nothing, so at most one loop runs per camera.
    pub fn start(&mut self) -> (r: Result<(), CameraError>)
        ensures
            !old(self).running ==> *final(self) == (SVBonyCamera {
                running: true,
                ..*old(self)
            }) && r is Ok,
            old(self).running ==> *final(self) == *old(self) && (r matches Err(e) && e
                == CameraError::Config),
    {
        if self.running {
            Err(CameraError::Config)
        } else {
            self.running = true;
            Ok(())
        }
    }

    /// Mark the device closed, clearing its handle to the sentinel the
    /// driver never assigns.
    pub fn mark_closed(&mut self)
        ensures
            *final(self) == (SVBonyCamera { id: -1i32, ..*old(self) }),
    {
        self.id = -1;
    }
}

/// The control writes the acquisition loop issues before starting capture,
/// in order: the fastest frame-speed mode, then a 30-millisecond initial
/// exposure in microseconds. (The loop also switches the driver's own
/// auto-save off, which takes no control value.)
pub fn capture_setup_writes() -> (r: Vec<(SVBControlType, i32)>)
    ensures
        r@.len() == 2,
        r@[0] == (SVBControlType::SVBFrameSpeedMode, 2i32),
        r@[1] == (SVBControlType::SVBExposure, 30000i32),
{
    let mut writes: Vec<(SVBControlType, i32)> = Vec::new();
    writes.push((SVBControlType::SVBFrameSpeedMode, 2));
    writes.push((SVBControlType::SVBExposure, 30000));
    writes
}

/// How long one frame readout may block, in milliseconds: twice the
/// exposure time plus half a second, the vendor-recommended margin.
pub fn readout_timeout_ms(exposure_us: i32) -> (r: i32)
    requires
        0 <= exposure_us <= 1_000_000_000,
    ensures
        r == exposure_us * 2 / 1000 + 500,
{
    exposure_us * 2 / 1000 + 500
}

/// The effective bit depth of a frame streamed in the given format at the
/// given binning: the format's bits per sample scaled by the binned pixel
/// area, with 8 bits assumed for formats that carry no raw sample width.
/// The 16-bit raw format reports 12, the sensor's true sample width.
pub fn bit_depth_for_format(format: &SVBImageType, bin: i32) -> (r: i32)
    requires
        1 <= bin <= 1000,
    ensures
        *format == SVBImageType::SVBImageRaw8 ==> r == 8 * (bin * bin),
        *format == SVBImageType::SVBImageRaw10 ==> r == 10 * (bin * bin),
        *format == SVBImageType::SVBImageRaw12 ==> r == 12 * (bin * bin),
        *format == SVBImageType::SVBImageRaw14 ==> r == 14 * (bin * bin),
        *format == SVBImageType::SVBImageRaw16 ==> r == 12 * (bin * bin),
        *format != SVBImageType::SVBImageRaw8 && *format != SVBImageType::SVBImageRaw10 && *format
            != SVBImageType::SVBImageRaw12 && *format != SVBImageType::SVBImageRaw14 && *format
            != SVBImageType::SVBImageRaw16 ==> r == 8 * (bin * bin),
{
    proof {
        assert(bin * bin <= 1000 * 1000) by (nonlinear_arith)
            requires
                1 <= bin <= 1000,
        ;
        assert(1 <= bin * bin) by (nonlinear_arith)
            requires
                1 <= bin,
        ;
    }
    let area: i32 = bin * bin;
    match format {
        SVBImageType::SVBImageRaw8 => 8 * area,
        SVBImageType::SVBImageRaw10 => 10 * area,
        SVBImageType::SVBImageRaw12 => 12 * area,
        SVBImageType::SVBImageRaw14 => 14 * area,
        SVBImageType::SVBImageRaw16 => 12 * area,
        _ => 8 * area,
    }
}

/// The byte width of the element buffer a frame of the given effective bit
/// depth is read into: one byte at 8 bits, two bytes at the wider raw
/// depths, and nothing for depths the acquisition loop does not support.
pub fn pixel_stride_for_depth(bit_depth: i32) -> (r: Option<usize>)
    ensures
        bit_depth == 8 ==> r == Some(1usize),
        bit_depth == 10 || bit_depth == 12 || bit_depth == 14 || bit_depth == 16 ==> r == Some(
            2usize,
        ),
        bit_depth != 8 && bit_depth != 10 && bit_depth != 12 && bit_depth != 14 && bit_depth != 16
            ==> r is None,
{
    if bit_depth == 8 {
        Some(1)
    } else if bit_depth == 10 || bit_depth == 12 || bit_depth == 14 || bit_depth == 16 {
        Some(2)
    } else {
        None
    }
}

} // verus!
