//! The simulated camera backend: its configuration state, the acquisition
//! state machine (Idle or Running, tracked by the running flag), and the
//! integer parameters of the synthesized intensity pattern.

use vstd::prelude::*;
use vstd::arithmetic::power2::pow2;
use vstd::string::StringExecFns;
use crate::camera::Camera;
use crate::camera::CameraError;
use crate::pixel::PixelType;

verus! {

/// The simulated camera: configuration shared between the controlling
/// thread and the acquisition loop, plus the running flag that drives the
/// Idle/Running state machine.
pub struct SimCamera {
    pub exposure_us: u64,
    pub gain: i64,
    pub width: usize,
    pub height: usize,
    pub bit_depth: u8,
    pub frame_rate_fps: u32,
    pub running: bool,
}

impl SimCamera {
    /// Well-formedness: the sensor depth is one of the monochrome widths
    /// and the cadence and dimensions are representable.
    pub open spec fn wf(&self) -> bool {
        &&& 0 < self.bit_depth <= 16
        &&& 0 < self.frame_rate_fps
        &&& self.width <= u32::MAX
        &&& self.height <= u32::MAX
    }

    /// A new simulated camera, Idle, at the default cadence of 30 frames
    /// per second.
    pub fn new(width: usize, height: usize, bit_depth: u8) -> (r: SimCamera)
        requires
            0 < bit_depth <= 16,
            width <= u32::MAX,
            height <= u32::MAX,
        ensures
            r.wf(),
            r.width == width,
            r.height == height,
            r.bit_depth == bit_depth,
            r.exposure_us == 0,
            r.gain == 0,
            r.frame_rate_fps == 30,
            !r.running,
    {
        SimCamera {
            exposure_us: 0,
            gain: 0,
            width,
            height,
            bit_depth,
            frame_rate_fps: 30,
            running: false,
        }
    }

    /// Whether the acquisition loop delivers a frame on this cycle: only
    /// while the state machine is Running.
    pub open spec fn should_deliver(&self) -> bool {
        self.running
    }

    /// Whether the state machine is Running.
    pub fn is_running(&self) -> (r: bool)
        ensures
            r == self.running,
    {
        self.running
    }

    /// The largest intensity the simulated sensor produces: two to the bit
    /// depth, less one.
    pub fn sensor_max(&self) -> (r: u32)
        requires
            self.wf(),
        ensures
            r == pow2(self.bit_depth as nat) - 1,
    {
        proof {
            vstd::arithmetic::power2::lemma2_to64();
            vstd::bits::lemma_u32_shl_is_mul(1u32, self.bit_depth as u32);
        }
        (1u32 << (self.bit_depth as u32)) - 1
    }

    /// The integer parameters of the synthesized Gaussian-blob pattern, as
    /// fractions of the intensity range `range = 2^bit_depth`: the noise
    /// standard deviation `range / 32`, the background offset `range / 8`,
    /// and the blob peak `range / 2`.
    pub fn blob_params(&self) -> (r: (u32, u32, u32))
        requires
            self.wf(),
        ensures
            r.0 == pow2(self.bit_depth as nat) / 32,
            r.1 == pow2(self.bit_depth as nat) / 8,
            r.2 == pow2(self.bit_depth as nat) / 2,
    {
        proof {
            vstd::arithmetic::power2::lemma2_to64();
            if self.bit_depth < 16 {
                vstd::arithmetic::power2::lemma_pow2_strictly_increases(
                    self.bit_depth as nat,
                    16,
                );
            }
        }
        let range: u32 = self.sensor_max() + 1;
        (range / 32, range / 8, range / 2)
    }

    /// The pixel layout of the frames this camera synthesizes: 8-bit
    /// monochrome for sensor depths up to 8 bits, 16-bit monochrome above.
    pub fn frame_pixel_type(&self) -> (r: PixelType)
        ensures
            self.bit_depth <= 8 ==> r == PixelType::Gray8,
            self.bit_depth > 8 ==> r == PixelType::Gray16,
    {
        if self.bit_depth <= 8 {
            PixelType::Gray8
        } else {
            PixelType::Gray16
        }
    }

    /// How long the acquisition loop sleeps after a delivered frame to hold
    /// the configured cadence: one cycle, in microseconds.
    pub fn cycle_sleep_us(&self) -> (r: u64)
        requires
            self.wf(),
        ensures
            r == 1_000_000u64 / self.frame_rate_fps as u64,
    {
        1_000_000u64 / (self.frame_rate_fps as u64)
    }
}

/// Law: once `stop` has completed, the acquisition loop's delivery
/// condition is false, so no frame callback decision can be positive until
/// a later `start`.
pub proof fn lemma_no_delivery_after_stop(cam: SimCamera)
    requires
        !cam.running,
    ensures
        !cam.should_deliver(),
{
}

impl Camera for SimCamera {
    /// The backend's display name.
    fn name(&self) -> (r: String)
        ensures
            r@ == "Simulated Camera"@,
    {
        String::from_str("Simulated Camera")
    }

    /// Connecting a simulated camera always succeeds and changes nothing.
    fn connect(&mut self) -> (r: Result<(), CameraError>)
        ensures
            *final(self) == *old(self),
            r is Ok,
    {
        Ok(())
    }

    /// Disconnecting a simulated camera always succeeds and changes
    /// nothing.
    fn disconnect(&mut self) -> (r: Result<(), CameraError>)
        ensures
            *final(self) == *old(self),
            r is Ok,
    {
        Ok(())
    }

    /// Record the exposure time; it takes effect no earlier than the next
    /// cycle.
    fn set_exposure(&mut self, exposure_us: u64) -> (r: Result<(), CameraError>)
        ensures
            *final(self) == (SimCamera { exposure_us, ..*old(self) }),
            r is Ok,
    {
        self.exposure_us = exposure_us;
        Ok(())
    }

    /// The configured exposure time.
    fn get_exposure(&self) -> (r: Result<u64, CameraError>)
        ensures
            r == Ok::<u64, CameraError>(self.exposure_us),
    {
        Ok(self.exposure_us)
    }

    /// The simulated camera accepts any exposure.
    fn get_exposure_limits(&self) -> (r: Result<(u64, u64), CameraError>)
        ensures
            r == Ok::<(u64, u64), CameraError>((0u64, 0u64)),
    {
        Ok((0, 0))
    }

    /// Record the gain; it takes effect no earlier than the next cycle.
    fn set_gain(&mut self, gain: i64) -> (r: Result<(), CameraError>)
        ensures
            *final(self) == (SimCamera { gain, ..*old(self) }),
            r is Ok,
    {
        self.gain = gain;
        Ok(())
    }

    /// The configured gain.
    fn get_gain(&self) -> (r: Result<i64, CameraError>)
        ensures
            r == Ok::<i64, CameraError>(self.gain),
    {
        Ok(self.gain)
    }

    /// The full sensor as the current region of interest; dimensions wider
    /// than 32 bits truncate, as a well-formed camera never holds any.
    fn get_roi(&self) -> (r: Result<(u32, u32, u32, u32), CameraError>)
        ensures
            r == Ok::<(u32, u32, u32, u32), CameraError>(
                (0u32, 0u32, self.width as u32, self.height as u32),
            ),
    {
        Ok((0, 0, #[verifier::truncate] (self.width as u32), #[verifier::truncate] (self.height as u32)))
    }

    /// Record new frame dimensions; the offsets are ignored, as the
    /// simulated sensor has no fixed physical extent.
    fn set_roi(&mut self, x: u32, y: u32, width: u32, height: u32) -> (r: Result<
        (),
        CameraError,
    >)
        ensures
            *final(self) == (SimCamera {
                width: width as usize,
                height: height as usize,
                ..*old(self)
            }),
            r is Ok,
    {
        self.width = width as usize;
        self.height = height as usize;
        Ok(())
    }

    /// The simulated sensor reports no largest region.
    fn get_max_roi(&self) -> (r: Result<(u32, u32, u32, u32), CameraError>)
        ensures
            r == Ok::<(u32, u32, u32, u32), CameraError>((0u32, 0u32, 0u32, 0u32)),
    {
        Ok((0, 0, 0, 0))
    }

    /// Idle to Running. A `start` while already Running is rejected with a
    /// `Config` error and changes nothing, so at most one acquisition loop
    /// runs per camera.
    fn start(&mut self) -> (r: Result<(), CameraError>)
        ensures
            !old(self).running ==> *final(self) == (SimCamera { running: true, ..*old(self) })
                && r is Ok,
            old(self).running ==> *final(self) == *old(self) && (r matches Err(e) && e
                == CameraError::Config),
    {
        if self.running {
            Err(CameraError::Config)
        } else {
            self.running = true;
            Ok(())
        }
    }

    /// Running to Idle: clear the running flag. The acquisition loop
    /// observes the flag at the head of each cycle and exits; joining the
    /// loop's thread is the embedder's part of the protocol.
    fn stop(&mut self) -> (r: Result<(), CameraError>)
        ensures
            *final(self) == (SimCamera { running: false, ..*old(self) }),
            !final(self).should_deliver(),
            r is Ok,
    {
        self.running = false;
        Ok(())
    }
}

} // verus!
