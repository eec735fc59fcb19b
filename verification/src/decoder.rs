//! A FLAC stream held in memory, decoded block by block with `claxon`.
//!
//! Decoding itself is `claxon`'s work and nothing is proved of it: what it
//! makes of a stream's header, and of each block, only has a name here. What
//! is proved is what the library makes of each answer: [`opened`] and
//! [`decoded_event`] take an answer as an argument and say exactly what
//! becomes of it.

use vstd::prelude::*;
use crate::block::{BlockView, SampleBlock};
use crate::device::StreamInfo;
use crate::error::PlayError;
use crate::session::{Event, EventView};

verus! {

/// A `claxon::FlacReader` over a cursor on bytes in memory. Verus sees
/// nothing inside it: the reader is generic over `std::io::Read`, a trait
/// that Verus knows nothing of, so the reader is held here, behind a type that
/// Verus takes on trust.
#[verifier::external_body]
pub struct FlacStream {
    reader: claxon::FlacReader<std::io::Cursor<Vec<u8>>>,
}

/// `claxon::Error`, why a stream could not be decoded. Opaque here.
#[verifier::external_type_specification]
#[verifier::external_body]
pub struct ExClaxonError(claxon::Error);

/// A stream with this many zero bytes in a row is not handed to the decoder.
///
/// `claxon` counts the zero bits of a unary run in 32 bits, eight for every
/// zero byte. Half a gigabyte of zero bytes in a row would overflow that
/// count; a quarter is refused. No FLAC stream has such a run: every frame
/// begins with a sync code, and no frame or metadata block is nearly as long.
pub const ZERO_RUN_LIMIT: usize = 0x1000_0000;

/// Whether `length` zero bytes in a row begin at `start`.
pub open spec fn zero_run_at(bytes: Seq<u8>, start: int, length: nat) -> bool {
    &&& 0 <= start
    &&& start + length <= bytes.len()
    &&& forall|j: int| start <= j < start + length ==> bytes[j] == 0
}

/// Whether `bytes` hold `length` zero bytes in a row somewhere.
pub open spec fn has_zero_run(bytes: Seq<u8>, length: nat) -> bool {
    exists|start: int| zero_run_at(bytes, start, length)
}

/// Looks for `length` zero bytes in a row.
pub fn holds_zero_run(bytes: &Vec<u8>, length: usize) -> (found: bool)
    ensures
        found == has_zero_run(bytes@, length as nat),
{
    if length == 0 {
        assert(zero_run_at(bytes@, 0, 0));
        return true;
    }
    let mut run: usize = 0;
    let mut i: usize = 0;
    while i < bytes.len()
        invariant
            i <= bytes.len(),
            run <= i,
            run < length,
            forall|j: int| i - run <= j < i ==> bytes@[j] == 0,
            run < i ==> bytes@[i - run - 1] != 0,
            forall|start: int|
                start + length <= i ==> !#[trigger] zero_run_at(bytes@, start, length as nat),
        decreases bytes.len() - i,
    {
        if bytes[i] == 0 {
            run += 1;
            if run == length {
                assert(zero_run_at(bytes@, i + 1 - length, length as nat));
                return true;
            }
        } else {
            run = 0;
        }
        i += 1;
        assert forall|start: int| start + length <= i implies !#[trigger] zero_run_at(
            bytes@,
            start,
            length as nat,
        ) by {
            if start + length == i && start >= 0 {
                // A run that ends here would hold the byte that ended the
                // run before this one.
                if run == 0 {
                    assert(bytes@[i - 1] != 0);
                } else {
                    assert(start <= i - run - 1 < start + length);
                    assert(bytes@[i - run - 1] != 0);
                }
            }
        }
    }
    false
}

/// What `claxon::FlacReader::new` makes of a stream's header and metadata:
/// the stream's description where it accepts them, `None` where it does not.
pub uninterp spec fn flac_stream_info(bytes: Seq<u8>) -> Option<StreamInfo>;

/// What `claxon`'s `read_next_or_eof` makes of a stream where it stands,
/// decoding into `storage`: a block as its channels, its frames and its
/// samples, or no block at the end of the stream; `None` where it reports an
/// error.
pub uninterp spec fn flac_next_block(stream: FlacStream, storage: Seq<i32>) -> Option<
    Option<(u32, u32, Seq<i32>)>,
>;

/// Calls `claxon::FlacReader::new` on a cursor over `bytes`, which reads the
/// stream's header and metadata blocks, and copies out of the reader's
/// `streaminfo()` the four fields the library reads. The contract claims no
/// more than that the outcome depends on the bytes alone: it gives that
/// outcome its name.
///
/// Every [`FlacStream`] is made here, so none is made of bytes with a run of
/// [`ZERO_RUN_LIMIT`] zero bytes.
#[verifier::external_body]
fn read_header(bytes: Vec<u8>) -> (r: Result<(FlacStream, StreamInfo), claxon::Error>)
    requires
        !has_zero_run(bytes@, ZERO_RUN_LIMIT as nat),
    ensures
        match r {
            Ok((_, info)) => flac_stream_info(bytes@) == Some(info),
            Err(_) => flac_stream_info(bytes@) is None,
        },
{
    let reader = claxon::FlacReader::new(std::io::Cursor::new(bytes))?;
    let info = reader.streaminfo();
    let info = StreamInfo {
        channels: info.channels,
        sample_rate: info.sample_rate,
        bits_per_sample: info.bits_per_sample,
        max_block_size: info.max_block_size,
    };
    Ok((FlacStream { reader }, info))
}

/// Calls `claxon::frame::FrameReader::read_next_or_eof` on the reader's
/// `blocks()`, decoding into `storage`, and takes the block apart into its
/// channel count, its duration in frames and its buffer. The contract claims
/// no more than that the outcome depends on the stream as it stands and on
/// the storage alone, the reader being one over bytes in memory: it gives
/// that outcome its name.
///
/// That the call returns rests on two things that [`read_header`], the one
/// source of streams, sees to. `blocks()` panics on a reader made for
/// metadata only, which `FlacReader::new` never makes. And the count of a
/// unary run, kept in 32 bits, overflows only after more zero bytes in a row
/// than a stream may hold here.
#[verifier::external_body]
fn read_block(stream: &mut FlacStream, storage: Vec<i32>) -> (r: Result<
    Option<RawBlock>,
    claxon::Error,
>)
    ensures
        answer_view(r) == flac_next_block(*old(stream), storage@),
{
    match stream.reader.blocks().read_next_or_eof(storage) {
        Ok(Some(block)) => Ok(Some((block.channels(), block.duration(), block.into_buffer()))),
        Ok(None) => Ok(None),
        Err(e) => Err(e),
    }
}

/// What the stream's next block is decoded to, as the decoder hands it out:
/// channels, frames, and the samples channel after channel.
pub type RawBlock = (u32, u32, Vec<i32>);

/// An answer of the decoder as a value: the block, or none at the end of the
/// stream; `None` for an error, whichever it is.
pub open spec fn answer_view(answer: Result<Option<RawBlock>, claxon::Error>) -> Option<
    Option<(u32, u32, Seq<i32>)>,
> {
    match answer {
        Ok(Some((channels, frames, samples))) => Some(Some((channels, frames, samples@))),
        Ok(None) => Some(None),
        Err(_) => None,
    }
}

/// The event that an answer of the decoder stands for.
pub open spec fn event_of(answer: Option<Option<(u32, u32, Seq<i32>)>>) -> EventView {
    match answer {
        Some(Some((channels, frames, samples))) => if samples.len() == channels * frames {
            EventView::Block(
                BlockView { channels: channels as nat, frames: frames as nat, samples },
            )
        } else {
            EventView::Failed
        },
        Some(None) => EventView::EndOfStream,
        None => EventView::Failed,
    }
}

/// Turns an answer of the decoder into the event for the session: a block,
/// the end of the stream, or a failure. A block that does not hold exactly
/// one sample per channel and frame is a failure too.
pub fn decoded_event(answer: Result<Option<RawBlock>, claxon::Error>) -> (event: Event)
    ensures
        event@ == event_of(answer_view(answer)),
{
    match answer {
        Ok(Some((channels, frames, samples))) => match SampleBlock::new(channels, frames, samples) {
            Some(block) => Event::Block(block),
            None => Event::Failed,
        },
        Ok(None) => Event::EndOfStream,
        Err(_) => Event::Failed,
    }
}

/// An event that the decoder can give.
pub open spec fn from_decoder(event: EventView) -> bool {
    match event {
        EventView::Block(block) => block.complete(),
        EventView::EndOfStream => true,
        EventView::Failed => true,
        _ => false,
    }
}

/// A FLAC stream that is being decoded.
pub struct Decoder {
    stream: FlacStream,
    info: StreamInfo,
}

/// What becomes of the decoder's answer to a stream's header: a stream that
/// was accepted is ready to be decoded, and whatever the decoder objected to
/// is a failure to open the track.
pub fn opened(answer: Result<(FlacStream, StreamInfo), claxon::Error>) -> (r: Result<
    Decoder,
    PlayError,
>)
    ensures
        match answer {
            Ok((stream, info)) => {
                &&& r is Ok
                &&& r->Ok_0.stream() == stream
                &&& r->Ok_0.stream_info() == info
            },
            Err(_) => r == Err::<Decoder, PlayError>(PlayError::FileOpenFailure),
        },
{
    match answer {
        Ok((stream, info)) => Ok(Decoder { stream, info }),
        Err(_) => Err(PlayError::FileOpenFailure),
    }
}

impl Decoder {
    /// The stream that is being decoded.
    pub closed spec fn stream(&self) -> FlacStream {
        self.stream
    }

    /// What the stream said of itself when it was opened.
    pub closed spec fn stream_info(&self) -> StreamInfo {
        self.info
    }

    /// Opens the FLAC stream in `bytes`: reads its header and metadata, and
    /// stops before the first block. Bytes with [`ZERO_RUN_LIMIT`] zero bytes
    /// in a row are no FLAC stream and are refused unread.
    pub fn open(bytes: Vec<u8>) -> (r: Result<Decoder, PlayError>)
        ensures
            if has_zero_run(bytes@, ZERO_RUN_LIMIT as nat) {
                r == Err::<Decoder, PlayError>(PlayError::FileOpenFailure)
            } else {
                match flac_stream_info(bytes@) {
                    Some(info) => r is Ok && r->Ok_0.stream_info() == info,
                    None => r == Err::<Decoder, PlayError>(PlayError::FileOpenFailure),
                }
            },
    {
        if holds_zero_run(&bytes, ZERO_RUN_LIMIT) {
            return Err(PlayError::FileOpenFailure);
        }
        opened(read_header(bytes))
    }

    pub fn info(&self) -> (info: StreamInfo)
        ensures
            info == self.stream_info(),
    {
        self.info
    }

    /// Decodes the next block into `storage` and hands it out as an event for
    /// the session: a block, the end of the stream, or a failure.
    pub fn next_event(&mut self, storage: Vec<i32>) -> (event: Event)
        ensures
            event@ == event_of(flac_next_block(old(self).stream(), storage@)),
            from_decoder(event@),
            final(self).stream_info() == old(self).stream_info(),
    {
        let answer = read_block(&mut self.stream, storage);
        decoded_event(answer)
    }
}

} // verus!
