//! One playback, as a machine that is told what happened and answers what
//! to do next.
//!
//! The session asks for one thing at a time. Whoever owns the device performs
//! the [`Action`] and reports the outcome as an [`Event`]; [`Session::step`]
//! then names the next action. A playback runs
//!
//! ```text
//! configure hardware -> configure software -> fetch
//! fetch: a block       -> write -> query state -> (start ->) fetch
//! fetch: end of stream -> drain -> finish
//! ```
//!
//! and every failure ends it. Raw PCM played on its own takes the same path,
//! with chunks of bytes in place of decoded blocks.

use vstd::prelude::*;
use crate::block::{interleaved, BlockView, SampleBlock};
use crate::device::{
    hardware_for, hardware_params, software_params, DeviceState, HardwareParams, SoftwareParams,
    StreamInfo,
};
use crate::error::PlayError;
use crate::format::{format_for, SampleFormat, Source};

verus! {

/// What the session is waiting for.
#[derive(Clone, Copy, Debug, PartialEq, Eq, Structural)]
pub enum Phase {
    /// For the device to take the hardware parameters.
    Configuring,
    /// For the device to take the software parameters.
    Tuning,
    /// For the next block of the stream.
    Fetching,
    /// For the device to take a buffer.
    Writing,
    /// For the device to report its state.
    Checking,
    /// For the device to start.
    Starting,
    /// For the device to play out what is queued.
    Draining,
    /// For nothing: the track was played.
    Finished,
    /// For nothing: playback was given up.
    Failed,
}

/// What the caller reports to the session.
#[derive(Debug, PartialEq, Eq)]
pub enum Event {
    /// The device took the hardware parameters; its buffer holds this many
    /// frames.
    HardwareApplied(i64),
    /// The device took the software parameters.
    SoftwareApplied,
    /// The stream gave its next block.
    Block(SampleBlock),
    /// A read of raw PCM came back: the buffer it read into, and the number
    /// of bytes it filled.
    Chunk(Vec<u8>, usize),
    /// The stream has no more blocks.
    EndOfStream,
    /// The device took a buffer and accepted this many frames of it.
    Written(usize),
    /// The device reported its state.
    State(DeviceState),
    /// The device started.
    Started,
    /// The device played out everything that was queued.
    Drained,
    /// What the session asked for could not be done.
    Failed,
}

/// An [`Event`] with its block as a value.
pub enum EventView {
    HardwareApplied(i64),
    SoftwareApplied,
    Block(BlockView),
    Chunk(Seq<u8>, usize),
    EndOfStream,
    Written(usize),
    State(DeviceState),
    Started,
    Drained,
    Failed,
}

impl View for Event {
    type V = EventView;

    open spec fn view(&self) -> EventView {
        match *self {
            Event::HardwareApplied(buffer_size) => EventView::HardwareApplied(buffer_size),
            Event::SoftwareApplied => EventView::SoftwareApplied,
            Event::Block(block) => EventView::Block(block@),
            Event::Chunk(buffer, filled) => EventView::Chunk(buffer@, filled),
            Event::EndOfStream => EventView::EndOfStream,
            Event::Written(frames) => EventView::Written(frames),
            Event::State(state) => EventView::State(state),
            Event::Started => EventView::Started,
            Event::Drained => EventView::Drained,
            Event::Failed => EventView::Failed,
        }
    }
}

/// What the session asks of its caller.
#[derive(Debug, PartialEq, Eq)]
pub enum Action {
    /// Apply these hardware parameters, then report the buffer size.
    ConfigureHardware(HardwareParams),
    /// Apply these software parameters.
    ConfigureSoftware(SoftwareParams),
    /// Decode the next block of the stream.
    Fetch,
    /// Read raw PCM into a buffer of this many bytes.
    ReadChunk(usize),
    /// Write this buffer to the device, in one blocking call.
    Write(Vec<u8>),
    /// Ask the device for its state.
    QueryState,
    /// Start the device.
    Start,
    /// Wait until the device has played out what is queued.
    Drain,
    /// Nothing is left to do.
    Finish,
    /// Give up with this error.
    Abort(PlayError),
}

/// An [`Action`] with its buffer as a value.
pub enum ActionView {
    ConfigureHardware(HardwareParams),
    ConfigureSoftware(SoftwareParams),
    Fetch,
    ReadChunk(usize),
    Write(Seq<u8>),
    QueryState,
    Start,
    Drain,
    Finish,
    Abort(PlayError),
}

impl View for Action {
    type V = ActionView;

    open spec fn view(&self) -> ActionView {
        match *self {
            Action::ConfigureHardware(params) => ActionView::ConfigureHardware(params),
            Action::ConfigureSoftware(params) => ActionView::ConfigureSoftware(params),
            Action::Fetch => ActionView::Fetch,
            Action::ReadChunk(size) => ActionView::ReadChunk(size),
            Action::Write(bytes) => ActionView::Write(bytes@),
            Action::QueryState => ActionView::QueryState,
            Action::Start => ActionView::Start,
            Action::Drain => ActionView::Drain,
            Action::Finish => ActionView::Finish,
            Action::Abort(error) => ActionView::Abort(error),
        }
    }
}

/// The error for a failure reported in `phase`, where the session was waiting
/// for something that can fail.
pub open spec fn failure_in(phase: Phase) -> Option<PlayError> {
    match phase {
        Phase::Configuring | Phase::Tuning => Some(PlayError::DeviceNegotiationFailure),
        Phase::Fetching => Some(PlayError::DecodeError),
        Phase::Writing | Phase::Checking | Phase::Starting => Some(PlayError::WriteFailure),
        Phase::Draining => Some(PlayError::DrainFailure),
        Phase::Finished | Phase::Failed => None,
    }
}

/// Bytes that one read of raw PCM asks for.
pub const CHUNK_BYTES: usize = 44100;

/// A read of raw PCM that fills fewer bytes than this ends the stream.
pub const MIN_CHUNK_BYTES: usize = 1024;

/// A session as a value.
pub struct SessionView {
    pub source: Source,
    pub phase: Phase,
    pub format: SampleFormat,
    /// Channels that the device was configured for.
    pub channels: nat,
    /// Frames in the buffer that the device was last asked to take.
    pub pending: nat,
    /// Whether the device ever accepted fewer frames than it was asked to
    /// take.
    pub underrun: bool,
    /// The samples of the block written last, whose storage the session
    /// keeps for the next block, until it is taken.
    pub storage: Seq<i32>,
}

impl SessionView {
    /// The same session in another phase.
    pub open spec fn at(self, phase: Phase) -> SessionView {
        SessionView { phase, ..self }
    }

    /// The same session after it asked the device to take `frames` frames.
    pub open spec fn writing(self, frames: nat) -> SessionView {
        SessionView { phase: Phase::Writing, pending: frames, ..self }
    }

    /// The same session after its storage was taken.
    pub open spec fn emptied(self) -> SessionView {
        SessionView { storage: Seq::empty(), ..self }
    }

    /// Bytes of one frame on the device.
    pub open spec fn frame_bytes(self) -> nat {
        self.channels * self.format.width()
    }

    /// How the session asks for more of its stream.
    pub open spec fn fetch(self) -> ActionView {
        match self.source {
            Source::Decoder => ActionView::Fetch,
            Source::Standalone => ActionView::ReadChunk(CHUNK_BYTES),
        }
    }
}

/// Whole frames in `bytes` bytes at `frame_bytes` bytes a frame.
pub open spec fn frames_in(bytes: nat, frame_bytes: nat) -> nat {
    if frame_bytes == 0 {
        0
    } else {
        bytes / frame_bytes
    }
}

/// The session's whole behaviour: what follows `session` on `event` and the
/// action that goes with it, or `None` where `event` is not one that the
/// session waits for.
///
/// A block is written only if it has the channels that the device was
/// configured for: its buffer would not be laid out as the device expects
/// otherwise, and playback is given up. A short write counts as a write and
/// playback goes on; the session only remembers that there was one. A chunk
/// of raw PCM is written whole, also where the read filled only a part of it.
pub open spec fn step_spec(session: SessionView, event: EventView) -> Option<
    (SessionView, ActionView),
> {
    match (session.phase, event) {
        (Phase::Configuring, EventView::HardwareApplied(buffer_size)) => Some(
            (
                session.at(Phase::Tuning),
                ActionView::ConfigureSoftware(SoftwareParams { start_threshold: buffer_size }),
            ),
        ),
        (Phase::Tuning, EventView::SoftwareApplied) => Some(
            (session.at(Phase::Fetching), session.fetch()),
        ),
        (Phase::Fetching, EventView::Block(block)) => if session.source != Source::Decoder {
            None
        } else if block.channels == session.channels {
            Some(
                (
                    SessionView { storage: block.samples, ..session.writing(block.frames) },
                    ActionView::Write(interleaved(block, session.format.width())),
                ),
            )
        } else {
            Some((session.at(Phase::Failed), ActionView::Abort(PlayError::DecodeError)))
        },
        (Phase::Fetching, EventView::Chunk(buffer, filled)) => if session.source
            != Source::Standalone {
            None
        } else if filled >= MIN_CHUNK_BYTES {
            Some(
                (
                    session.writing(frames_in(buffer.len(), session.frame_bytes())),
                    ActionView::Write(buffer),
                ),
            )
        } else {
            Some((session.at(Phase::Draining), ActionView::Drain))
        },
        (Phase::Fetching, EventView::EndOfStream) => Some(
            (session.at(Phase::Draining), ActionView::Drain),
        ),
        (Phase::Writing, EventView::Written(frames)) => Some(
            (
                SessionView {
                    phase: Phase::Checking,
                    underrun: session.underrun || frames < session.pending,
                    ..session
                },
                ActionView::QueryState,
            ),
        ),
        (Phase::Checking, EventView::State(state)) => if state == DeviceState::Running {
            Some((session.at(Phase::Fetching), session.fetch()))
        } else {
            Some((session.at(Phase::Starting), ActionView::Start))
        },
        (Phase::Starting, EventView::Started) => Some(
            (session.at(Phase::Fetching), session.fetch()),
        ),
        (Phase::Draining, EventView::Drained) => Some(
            (session.at(Phase::Finished), ActionView::Finish),
        ),
        (_, EventView::Failed) => match failure_in(session.phase) {
            Some(error) => Some((session.at(Phase::Failed), ActionView::Abort(error))),
            None => None,
        },
        _ => None,
    }
}

/// One playback.
#[derive(Debug)]
pub struct Session {
    source: Source,
    phase: Phase,
    format: SampleFormat,
    channels: u32,
    pending: u64,
    underrun: bool,
    /// Storage of the block written last, kept for the next block.
    spare: Vec<i32>,
}

impl View for Session {
    type V = SessionView;

    closed spec fn view(&self) -> SessionView {
        SessionView {
            source: self.source,
            phase: self.phase,
            format: self.format,
            channels: self.channels as nat,
            pending: self.pending as nat,
            underrun: self.underrun,
            storage: self.spare@,
        }
    }
}

/// The session that begins the playback of a stream in `format`.
pub open spec fn opening(source: Source, info: StreamInfo, format: SampleFormat) -> SessionView {
    SessionView {
        source,
        phase: Phase::Configuring,
        format,
        channels: info.channels as nat,
        pending: 0,
        underrun: false,
        storage: Seq::empty(),
    }
}

impl Session {
    /// Begins the playback of a stream: the session waits for the hardware
    /// parameters to be applied, and the first action asks for that. A stream
    /// whose bit depth has no format gets no session, so nothing is ever asked
    /// of the device.
    pub fn open(source: Source, info: &StreamInfo) -> (r: Result<(Session, Action), PlayError>)
        ensures
            match format_for(source, info.bits_per_sample) {
                Some(format) => {
                    &&& r is Ok
                    &&& r->Ok_0.0@ == opening(source, *info, format)
                    &&& r->Ok_0.1@ == ActionView::ConfigureHardware(hardware_for(*info, format))
                },
                None => r == Err::<(Session, Action), PlayError>(PlayError::UnsupportedFormat),
            },
    {
        match hardware_params(source, info) {
            Ok(params) => Ok(
                (
                    Session {
                        source,
                        phase: Phase::Configuring,
                        format: params.format,
                        channels: info.channels,
                        pending: 0,
                        underrun: false,
                        spare: Vec::with_capacity(info.max_block_size as usize),
                    },
                    Action::ConfigureHardware(params),
                ),
            ),
            Err(e) => Err(e),
        }
    }

    pub fn source(&self) -> (source: Source)
        ensures
            source == self@.source,
    {
        self.source
    }

    pub fn phase(&self) -> (phase: Phase)
        ensures
            phase == self@.phase,
    {
        self.phase
    }

    pub fn format(&self) -> (format: SampleFormat)
        ensures
            format == self@.format,
    {
        self.format
    }

    /// Whether the device ever accepted fewer frames than a buffer held.
    pub fn underrun(&self) -> (underrun: bool)
        ensures
            underrun == self@.underrun,
    {
        self.underrun
    }

    /// Hands out the storage of the block written last, for the next block to
    /// be decoded into.
    pub fn take_storage(&mut self) -> (storage: Vec<i32>)
        ensures
            storage@ == old(self)@.storage,
            final(self)@ == old(self)@.emptied(),
    {
        let mut storage: Vec<i32> = Vec::new();
        core::mem::swap(&mut self.spare, &mut storage);
        storage
    }

    fn fetch(&self) -> (action: Action)
        ensures
            action@ == self@.fetch(),
    {
        match self.source {
            Source::Decoder => Action::Fetch,
            Source::Standalone => Action::ReadChunk(CHUNK_BYTES),
        }
    }

    /// Whole frames in a buffer of `bytes` bytes.
    fn frames_of(&self, bytes: usize) -> (frames: u64)
        ensures
            frames == frames_in(bytes as nat, self@.frame_bytes()),
    {
        let frame_bytes: u64 = self.channels as u64 * self.format.bytes_per_sample() as u64;
        if frame_bytes == 0 {
            0
        } else {
            bytes as u64 / frame_bytes
        }
    }

    /// Takes in what happened and says what to do next. An event that the
    /// session is not waiting for is refused: it changes nothing and gets no
    /// action.
    pub fn step(&mut self, event: Event) -> (action: Option<Action>)
        ensures
            match step_spec(old(self)@, event@) {
                Some((next, act)) => {
                    &&& action is Some
                    &&& action->Some_0@ == act
                    &&& final(self)@ == next
                },
                None => action is None && final(self)@ == old(self)@,
            },
    {
        match (self.phase, event) {
            (Phase::Configuring, Event::HardwareApplied(buffer_size)) => {
                self.phase = Phase::Tuning;
                Some(Action::ConfigureSoftware(software_params(buffer_size)))
            },
            (Phase::Tuning, Event::SoftwareApplied) => {
                self.phase = Phase::Fetching;
                Some(self.fetch())
            },
            (Phase::Fetching, Event::Block(block)) => {
                if self.source != Source::Decoder {
                    None
                } else if block.channels() == self.channels {
                    self.phase = Phase::Writing;
                    self.pending = block.frames() as u64;
                    let bytes = block.to_bytes(self.format);
                    self.spare = block.into_samples();
                    Some(Action::Write(bytes))
                } else {
                    self.phase = Phase::Failed;
                    Some(Action::Abort(PlayError::DecodeError))
                }
            },
            (Phase::Fetching, Event::Chunk(buffer, filled)) => {
                if self.source != Source::Standalone {
                    None
                } else if filled >= MIN_CHUNK_BYTES {
                    self.pending = self.frames_of(buffer.len());
                    self.phase = Phase::Writing;
                    Some(Action::Write(buffer))
                } else {
                    self.phase = Phase::Draining;
                    Some(Action::Drain)
                }
            },
            (Phase::Fetching, Event::EndOfStream) => {
                self.phase = Phase::Draining;
                Some(Action::Drain)
            },
            (Phase::Writing, Event::Written(frames)) => {
                self.phase = Phase::Checking;
                if (frames as u64) < self.pending {
                    self.underrun = true;
                }
                Some(Action::QueryState)
            },
            (Phase::Checking, Event::State(state)) => {
                if state == DeviceState::Running {
                    self.phase = Phase::Fetching;
                    Some(self.fetch())
                } else {
                    self.phase = Phase::Starting;
                    Some(Action::Start)
                }
            },
            (Phase::Starting, Event::Started) => {
                self.phase = Phase::Fetching;
                Some(self.fetch())
            },
            (Phase::Draining, Event::Drained) => {
                self.phase = Phase::Finished;
                Some(Action::Finish)
            },
            (phase, Event::Failed) => match failure(phase) {
                Some(error) => {
                    self.phase = Phase::Failed;
                    Some(Action::Abort(error))
                },
                None => None,
            },
            _ => None,
        }
    }
}

/// The error for a failure reported in `phase`.
pub fn failure(phase: Phase) -> (error: Option<PlayError>)
    ensures
        error == failure_in(phase),
{
    match phase {
        Phase::Configuring | Phase::Tuning => Some(PlayError::DeviceNegotiationFailure),
        Phase::Fetching => Some(PlayError::DecodeError),
        Phase::Writing | Phase::Checking | Phase::Starting => Some(PlayError::WriteFailure),
        Phase::Draining => Some(PlayError::DrainFailure),
        Phase::Finished | Phase::Failed => None,
    }
}

} // verus!
