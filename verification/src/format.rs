//! Sample formats and the parameters a playback device is asked for.

use vstd::prelude::*;
use crate::error::PlayError;

verus! {

/// A signed little-endian sample format, named by its bit depth.
#[derive(Clone, Copy, Debug, PartialEq, Eq, Structural)]
pub enum SampleFormat {
    S16,
    S24,
    S32,
}

impl SampleFormat {
    /// Bytes that one sample occupies in a device buffer.
    pub open spec fn width(self) -> nat {
        match self {
            SampleFormat::S16 => 2,
            SampleFormat::S24 => 3,
            SampleFormat::S32 => 4,
        }
    }

    /// Bits per sample.
    pub open spec fn depth(self) -> nat {
        8 * self.width()
    }

    pub fn bytes_per_sample(self) -> (w: usize)
        ensures
            w == self.width(),
    {
        match self {
            SampleFormat::S16 => 2,
            SampleFormat::S24 => 3,
            SampleFormat::S32 => 4,
        }
    }

    pub fn bits_per_sample(self) -> (bits: u32)
        ensures
            bits == self.depth(),
    {
        match self {
            SampleFormat::S16 => 16,
            SampleFormat::S24 => 24,
            SampleFormat::S32 => 32,
        }
    }
}

/// Where the samples come from.
#[derive(Clone, Copy, Debug, PartialEq, Eq, Structural)]
pub enum Source {
    /// A decoded FLAC stream, played at 16 or 24 bits.
    Decoder,
    /// Raw PCM played on its own, at 32 bits.
    Standalone,
}

/// The format for a bit depth, where there is one.
pub open spec fn format_for(source: Source, bits: u32) -> Option<SampleFormat> {
    match source {
        Source::Decoder => if bits == 16 {
            Some(SampleFormat::S16)
        } else if bits == 24 {
            Some(SampleFormat::S24)
        } else {
            None
        },
        Source::Standalone => if bits == 32 {
            Some(SampleFormat::S32)
        } else {
            None
        },
    }
}

/// Picks the sample format for a bit depth. There is no fallback: a depth
/// without a format is an error, never a guess.
pub fn select_format(source: Source, bits: u32) -> (r: Result<SampleFormat, PlayError>)
    ensures
        r == match format_for(source, bits) {
            Some(format) => Ok::<SampleFormat, PlayError>(format),
            None => Err(PlayError::UnsupportedFormat),
        },
        r is Ok ==> r->Ok_0.depth() == bits,
{
    match source {
        Source::Decoder => if bits == 16 {
            Ok(SampleFormat::S16)
        } else if bits == 24 {
            Ok(SampleFormat::S24)
        } else {
            Err(PlayError::UnsupportedFormat)
        },
        Source::Standalone => if bits == 32 {
            Ok(SampleFormat::S32)
        } else {
            Err(PlayError::UnsupportedFormat)
        },
    }
}

} // verus!
