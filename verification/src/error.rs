//! The ways in which playing a track can fail.

use vstd::prelude::*;

verus! {

/// Why playback stopped. Every kind is fatal: nothing is retried.
#[derive(Clone, Copy, Debug, PartialEq, Eq, Structural)]
pub enum PlayError {
    /// The command line did not name exactly one track.
    MissingArgument,
    /// The track could not be opened as a FLAC stream.
    FileOpenFailure,
    /// The stream's bit depth has no sample format.
    UnsupportedFormat,
    /// The device refused the hardware or the software parameters.
    DeviceNegotiationFailure,
    /// A block of the stream could not be decoded, or has other channels
    /// than the stream said it has.
    DecodeError,
    /// The device refused a write, a status check or a start.
    WriteFailure,
    /// The device failed while playing out what was queued.
    DrainFailure,
}

} // verus!
