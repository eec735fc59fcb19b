//! What a playback device is asked for, and what it reports of itself.

use vstd::prelude::*;
use crate::error::PlayError;
use crate::format::{format_for, select_format, SampleFormat, Source};

verus! {

/// What a stream says of itself before its first block.
#[derive(Clone, Copy, Debug, PartialEq, Eq, Structural)]
pub struct StreamInfo {
    pub channels: u32,
    pub sample_rate: u32,
    pub bits_per_sample: u32,
    pub max_block_size: u16,
}

/// The state a device reports. The session reads one thing from it: whether
/// the device is running.
#[derive(Clone, Copy, Debug, PartialEq, Eq, Structural)]
pub enum DeviceState {
    Open,
    Prepared,
    Running,
    Draining,
    Closed,
}

/// How the samples of a buffer are laid out for the device.
#[derive(Clone, Copy, Debug, PartialEq, Eq, Structural)]
pub enum Access {
    /// One buffer, frame after frame.
    Interleaved,
    /// One buffer for each channel.
    Planar,
}

/// The hardware half of a device's parameters. The rate is a wish: the device
/// takes the nearest rate it supports.
#[derive(Clone, Copy, Debug, PartialEq, Eq, Structural)]
pub struct HardwareParams {
    pub channels: u32,
    pub rate: u32,
    pub format: SampleFormat,
    pub access: Access,
}

/// The software half of a device's parameters.
#[derive(Clone, Copy, Debug, PartialEq, Eq, Structural)]
pub struct SoftwareParams {
    /// Frames that must be queued before the device starts by itself.
    pub start_threshold: i64,
}

/// The hardware parameters for a stream in `format`.
pub open spec fn hardware_for(info: StreamInfo, format: SampleFormat) -> HardwareParams {
    HardwareParams {
        channels: info.channels,
        rate: info.sample_rate,
        format,
        access: Access::Interleaved,
    }
}

/// The hardware parameters to ask for when playing a stream: its channels and
/// rate, the format of its bit depth, interleaved access. A stream whose bit
/// depth has no format gets no parameters at all.
pub fn hardware_params(source: Source, info: &StreamInfo) -> (r: Result<
    HardwareParams,
    PlayError,
>)
    ensures
        r == match format_for(source, info.bits_per_sample) {
            Some(format) => Ok::<HardwareParams, PlayError>(hardware_for(*info, format)),
            None => Err(PlayError::UnsupportedFormat),
        },
{
    match select_format(source, info.bits_per_sample) {
        Ok(format) => Ok(
            HardwareParams {
                channels: info.channels,
                rate: info.sample_rate,
                format,
                access: Access::Interleaved,
            },
        ),
        Err(e) => Err(e),
    }
}

/// The software parameters for a device whose buffer holds `buffer_size`
/// frames: playback starts once one full buffer is queued.
pub fn software_params(buffer_size: i64) -> (params: SoftwareParams)
    ensures
        params.start_threshold == buffer_size,
{
    SoftwareParams { start_threshold: buffer_size }
}

} // verus!
