//! A session together with the stream it plays.
//!
//! The player fetches by itself: whenever the session asks for the next
//! block, the player decodes it and feeds it back, so that its caller is only
//! ever asked to do something with the device.

use vstd::prelude::*;
use crate::decoder::{
    event_of, flac_next_block, flac_stream_info, has_zero_run, Decoder, FlacStream, ZERO_RUN_LIMIT,
};
use crate::device::{hardware_for, StreamInfo};
use crate::error::PlayError;
use crate::format::{format_for, Source};
use crate::session::{
    opening, step_spec, Action, ActionView, Event, EventView, Phase, Session, SessionView,
};

verus! {

/// The playback of one FLAC stream.
pub struct Player {
    session: Session,
    decoder: Decoder,
}

/// What the player makes of the session's answer `step` when the stream then
/// gives `fetched`: a request for the next block is followed up with what the
/// stream gave, decoded into the storage that the session kept; anything else
/// stands as it is.
pub open spec fn follow_up(step: (SessionView, ActionView), fetched: EventView) -> Option<
    (SessionView, ActionView),
> {
    if step.1 == ActionView::Fetch {
        step_spec(step.0.emptied(), fetched)
    } else {
        Some(step)
    }
}

impl Player {
    /// The session as it stands.
    pub closed spec fn session(&self) -> SessionView {
        self.session@
    }

    /// The stream that is being decoded, where it stands.
    pub closed spec fn stream(&self) -> FlacStream {
        self.decoder.stream()
    }

    /// What the stream said of itself when it was opened.
    pub closed spec fn stream_info(&self) -> StreamInfo {
        self.decoder.stream_info()
    }

    /// Opens the FLAC stream in `bytes` and begins its playback. The first
    /// action asks for the hardware parameters of the stream to be applied.
    /// A stream that cannot be opened, or whose bit depth has no format, gets
    /// no player, so nothing is ever asked of the device.
    pub fn open(bytes: Vec<u8>) -> (r: Result<(Player, Action), PlayError>)
        ensures
            if has_zero_run(bytes@, ZERO_RUN_LIMIT as nat) {
                r == Err::<(Player, Action), PlayError>(PlayError::FileOpenFailure)
            } else {
                match flac_stream_info(bytes@) {
                    None => r == Err::<(Player, Action), PlayError>(PlayError::FileOpenFailure),
                    Some(info) => match format_for(Source::Decoder, info.bits_per_sample) {
                        None => r == Err::<(Player, Action), PlayError>(
                            PlayError::UnsupportedFormat,
                        ),
                        Some(format) => {
                            &&& r is Ok
                            &&& r->Ok_0.0.stream_info() == info
                            &&& r->Ok_0.0.session() == opening(Source::Decoder, info, format)
                            &&& r->Ok_0.1@ == ActionView::ConfigureHardware(
                                hardware_for(info, format),
                            )
                        },
                    },
                }
            },
    {
        let decoder = match Decoder::open(bytes) {
            Ok(decoder) => decoder,
            Err(e) => { return Err(e); },
        };
        let info = decoder.info();
        match Session::open(Source::Decoder, &info) {
            Ok((session, action)) => Ok((Player { session, decoder }, action)),
            Err(e) => Err(e),
        }
    }

    pub fn info(&self) -> (info: StreamInfo)
        ensures
            info == self.stream_info(),
    {
        self.decoder.info()
    }

    /// Whether the device ever accepted fewer frames than a buffer held.
    pub fn underrun(&self) -> (underrun: bool)
        ensures
            underrun == self.session().underrun,
    {
        self.session.underrun()
    }

    pub fn phase(&self) -> (phase: Phase)
        ensures
            phase == self.session().phase,
    {
        self.session.phase()
    }

    /// Takes in what the device did and says what to do next. Where the
    /// session would ask for the next block, the player decodes it here, into
    /// the storage that the session kept, and answers with what the session
    /// makes of it: a buffer to write, a drain at the end of the stream, or a
    /// decode error.
    ///
    /// An event that the session is not waiting for is refused: it changes
    /// nothing and gets no action.
    pub fn resume(&mut self, event: Event) -> (action: Option<Action>)
        ensures
            final(self).stream_info() == old(self).stream_info(),
            match step_spec(old(self).session(), event@) {
                None => action is None && final(self).session() == old(self).session(),
                Some(step) => {
                    &&& action is Some
                    &&& follow_up(
                        step,
                        event_of(flac_next_block(old(self).stream(), step.0.storage)),
                    ) == Some((final(self).session(), action->Some_0@))
                },
            },
            action is Some ==> action->Some_0@ != ActionView::Fetch,
    {
        match self.session.step(event) {
            Some(Action::Fetch) => {
                let storage = self.session.take_storage();
                let fetched = self.decoder.next_event(storage);
                self.session.step(fetched)
            },
            Some(action) => Some(action),
            None => None,
        }
    }
}

} // verus!
