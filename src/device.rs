//! Choosing and checking the video device that the pipeline writes into.
use vstd::prelude::*;

use crate::text::{contains, contains_seq};

verus! {

/// Capability bit of a device that can capture video.
pub const VIDEO_CAPTURE: u32 = 0x1;

/// Capability bit of a device that can output video.
pub const VIDEO_OUTPUT: u32 = 0x2;

/// What a query of one video device reports.
#[derive(Debug, Clone, PartialEq, Eq)]
pub struct VideoDevice {
    pub path: String,
    pub driver: String,
    pub capabilities: u32,
}

/// Why no usable device could be had.
#[derive(Debug, Clone, Copy, PartialEq, Eq, Structural)]
pub enum DeviceError {
    /// No device has a loopback driver with video output.
    NotFound,
    /// The device lacks the video capture capability.
    IncapableDevice,
}

/// The lower-case form that `str::to_lowercase` gives.
pub uninterp spec fn lower_of(s: Seq<char>) -> Seq<char>;

/// Relies on `str::to_lowercase`: the result depends on the characters alone.
#[verifier::external_body]
fn lowercase(s: &str) -> (r: String)
    ensures
        r@ == lower_of(s@),
{
    s.to_lowercase()
}

/// A driver name, already lower-cased, and capabilities that make a loopback
/// output device.
pub open spec fn loopback_output(lower_driver: Seq<char>, capabilities: u32) -> bool {
    contains_seq(lower_driver, "loopback"@) && capabilities & VIDEO_OUTPUT != 0
}

/// The device is a loopback output device, its driver compared without case.
pub open spec fn is_sink_candidate(d: VideoDevice) -> bool {
    loopback_output(lower_of(d.driver@), d.capabilities)
}

/// Whether a lower-cased driver name and capabilities make a loopback output
/// device.
pub fn is_loopback_output(lower_driver: &str, capabilities: u32) -> (r: bool)
    ensures
        r == loopback_output(lower_driver@, capabilities),
{
    contains(lower_driver, "loopback") && capabilities & VIDEO_OUTPUT != 0
}

/// `r` is the path of the first sink candidate among `devices`, or `NotFound`
/// where there is none.
pub open spec fn first_sink(devices: Seq<VideoDevice>, r: Result<String, DeviceError>) -> bool {
    match r {
        Ok(path) => exists|i: int|
            0 <= i < devices.len() && is_sink_candidate(devices[i]) && path@ == devices[i].path@
                && forall|j: int| 0 <= j < i ==> !is_sink_candidate(#[trigger] devices[j]),
        Err(e) => e == DeviceError::NotFound && forall|j: int|
            0 <= j < devices.len() ==> !is_sink_candidate(#[trigger] devices[j]),
    }
}

/// The path of the first device, in the order given, whose driver name holds
/// "loopback" in any case and which can output video.
pub fn default_video_dev(devices: &Vec<VideoDevice>) -> (r: Result<String, DeviceError>)
    ensures
        first_sink(devices@, r),
{
    let mut i: usize = 0;
    while i < devices.len()
        invariant
            i <= devices@.len(),
            forall|j: int| 0 <= j < i ==> !is_sink_candidate(#[trigger] devices@[j]),
        decreases devices@.len() - i,
    {
        let d = &devices[i];
        let lower = lowercase(d.driver.as_str());
        if is_loopback_output(lower.as_str(), d.capabilities) {
            let path = d.path.clone();
            return Ok(path);
        }
        i = i + 1;
    }
    Err(DeviceError::NotFound)
}

/// Succeeds exactly when the capabilities hold video capture, whatever else
/// they hold.
pub fn check_device_capabilities(capabilities: u32) -> (r: Result<(), DeviceError>)
    ensures
        r is Ok <==> capabilities & VIDEO_CAPTURE != 0,
        r is Err ==> r == Err::<(), DeviceError>(DeviceError::IncapableDevice),
{
    if capabilities & VIDEO_CAPTURE != 0 {
        Ok(())
    } else {
        Err(DeviceError::IncapableDevice)
    }
}

} // verus!
