//! Blocks of decoded samples, and the byte layout a playback device expects.
//!
//! A block stores its samples channel after channel; a device takes them frame
//! after frame, each sample as little-endian bytes.

use vstd::prelude::*;
use vstd::arithmetic::div_mod::{
    lemma_div_denominator, lemma_fundamental_div_mod, lemma_fundamental_div_mod_converse,
    lemma_hoist_over_denominator, lemma_mod_multiples_vanish, lemma_small_mod,
};
use crate::format::SampleFormat;

verus! {

/// What a block holds: `frames` samples for each of `channels` channels, the
/// channels stored one after the other.
pub struct BlockView {
    pub channels: nat,
    pub frames: nat,
    pub samples: Seq<i32>,
}

impl BlockView {
    /// The sample of `channel` at `frame`.
    pub open spec fn sample(self, channel: int, frame: int) -> i32 {
        self.samples[channel * self.frames + frame]
    }

    /// Every channel has a sample for every frame, and there is nothing else.
    pub open spec fn complete(self) -> bool {
        self.samples.len() == self.channels * self.frames
    }
}

/// 256 to the power `k`, for the byte positions of a 32-bit sample.
pub open spec fn place_value(k: int) -> int {
    if k <= 0 {
        1
    } else if k == 1 {
        0x100
    } else if k == 2 {
        0x1_0000
    } else {
        0x100_0000
    }
}

/// Byte `k` of a sample in two's complement, byte 0 being the least
/// significant.
pub open spec fn le_byte(sample: i32, k: int) -> u8 {
    ((sample as int / place_value(k)) % 256) as u8
}

/// Where byte `k` of the sample of `channel` at `frame` lies in a device
/// buffer of `channels` channels and `width` bytes per sample.
pub open spec fn byte_offset(channels: nat, width: nat, frame: int, channel: int, k: int) -> int {
    frame * channels * width + channel * width + k
}

/// The byte at position `i` of the device buffer for `block`.
pub open spec fn interleaved_byte(block: BlockView, width: nat, i: int) -> u8 {
    let slot = i / (width as int);
    le_byte(
        block.sample(slot % (block.channels as int), slot / (block.channels as int)),
        i % (width as int),
    )
}

/// The device buffer for `block` at `width` bytes per sample: frame after
/// frame, within a frame channel after channel, each sample little-endian.
pub open spec fn interleaved(block: BlockView, width: nat) -> Seq<u8> {
    Seq::new(block.frames * block.channels * width, |i: int| interleaved_byte(block, width, i))
}

/// A position built from a frame, a channel and a byte number takes apart
/// into the same three.
pub proof fn lemma_offset_parts(channels: nat, width: nat, frame: int, channel: int, k: int)
    requires
        0 <= frame,
        0 <= channel < channels,
        0 <= k < width,
    ensures
        byte_offset(channels, width, frame, channel, k) == (frame * channels + channel) * width
            + k,
        byte_offset(channels, width, frame, channel, k) % (width as int) == k,
        byte_offset(channels, width, frame, channel, k) / (width as int) == frame * channels
            + channel,
        (frame * channels + channel) % (channels as int) == channel,
        (frame * channels + channel) / (channels as int) == frame,
{
    let slot = frame * channels + channel;
    let i = byte_offset(channels, width, frame, channel, k);
    assert(i == slot * width + k) by (nonlinear_arith)
        requires
            i == frame * channels * width + channel * width + k,
            slot == frame * channels + channel,
    ;
    lemma_fundamental_div_mod_converse(i, width as int, slot, k);
    lemma_fundamental_div_mod_converse(slot, channels as int, frame, channel);
}

/// The device buffer has one sample width for every sample of the block.
pub proof fn law_interleaved_len(block: BlockView, width: nat)
    ensures
        interleaved(block, width).len() == block.frames * block.channels * width,
{
}

/// The sample of channel `c` at frame `f` lies at byte
/// `f * channels * width + c * width` of the device buffer, least significant
/// byte first.
pub proof fn law_interleaved_layout(block: BlockView, width: nat, frame: int, channel: int, k: int)
    requires
        0 <= frame < block.frames,
        0 <= channel < block.channels,
        0 <= k < width,
    ensures
        0 <= byte_offset(block.channels, width, frame, channel, k) < interleaved(
            block,
            width,
        ).len(),
        interleaved(block, width)[byte_offset(block.channels, width, frame, channel, k)]
            == le_byte(block.sample(channel, frame), k),
{
    lemma_offset_parts(block.channels, width, frame, channel, k);
    let slot = frame * block.channels + channel;
    assert(slot * width + k < block.frames * block.channels * width) by (nonlinear_arith)
        requires
            slot == frame * block.channels + channel,
            0 <= frame < block.frames,
            0 <= channel < block.channels,
            0 <= k < width,
    ;
    assert(0 <= slot * width + k) by (nonlinear_arith)
        requires
            slot == frame * block.channels + channel,
            0 <= frame,
            0 <= channel,
            0 <= k,
    ;
}

/// The value that the first `width` bytes of a sample spell, read as an
/// unsigned little-endian number.
pub open spec fn spelled(sample: i32, width: nat) -> int
    decreases width,
{
    if width == 0 {
        0
    } else {
        spelled(sample, (width - 1) as nat) + place_value(width - 1) * le_byte(sample, width - 1)
    }
}

/// Whether a sample can be told from every other sample of `format` by its
/// bytes in that format: whether it lies in the format's range.
pub open spec fn fits(sample: i32, format: SampleFormat) -> bool {
    -place_value(format.width() - 1) * 128 <= sample < place_value(format.width() - 1) * 128
}

/// Adding a multiple of 256^(k+1) to a value does not change its byte `k`.
proof fn lemma_byte_ignores_higher(x: int, t: int, k: int)
    requires
        0 <= k <= 3,
    ensures
        ((x + t * (256 * place_value(k))) / place_value(k)) % 256 == (x / place_value(k)) % 256,
{
    let p = place_value(k);
    assert(t * (256 * p) == (t * 256) * p) by (nonlinear_arith);
    lemma_hoist_over_denominator(x, t * 256, p as nat);
    assert((x + t * (256 * p)) / p == x / p + t * 256);
    lemma_mod_multiples_vanish(t, x / p, 256);
    assert((256 * t + x / p) % 256 == (x / p) % 256);
}

/// The four low bytes of a value below 2^32 add up to it.
proof fn lemma_bytes_of_image(v: int)
    requires
        0 <= v < 0x1_0000_0000,
    ensures
        v == (v / 1) % 256 + 0x100 * ((v / 0x100) % 256) + 0x1_0000 * ((v / 0x1_0000) % 256)
            + 0x100_0000 * ((v / 0x100_0000) % 256),
        v < 0x100_0000 ==> (v / 0x100_0000) % 256 == 0,
        v < 0x1_0000 ==> (v / 0x1_0000) % 256 == 0,
{
    let q1 = v / 0x100;
    let q2 = v / 0x1_0000;
    let q3 = v / 0x100_0000;
    let b0 = v % 256;
    let b1 = q1 % 256;
    let b2 = q2 % 256;
    let b3 = q3 % 256;
    lemma_div_denominator(v, 0x100, 0x100);
    lemma_div_denominator(v, 0x1_0000, 0x100);
    assert(q1 / 256 == q2);
    assert(q2 / 256 == q3);
    lemma_fundamental_div_mod(v, 256);
    lemma_fundamental_div_mod(q1, 256);
    lemma_fundamental_div_mod(q2, 256);
    assert(v == 256 * q1 + b0);
    assert(q1 == 256 * q2 + b1);
    assert(q2 == 256 * q3 + b2);
    assert(0 <= q3 < 256);
    lemma_small_mod(q3 as nat, 256);
    assert(b3 == q3);
    assert(v / 1 == v);
}

/// The bytes of a sample in a format spell the sample in two's complement,
/// provided the sample fits the format: nothing is lost by writing a sample
/// of 16 or 24 bits, held in a wider word, in 2 or 3 bytes.
pub proof fn law_bytes_spell_sample(sample: i32, format: SampleFormat)
    requires
        fits(sample, format),
    ensures
        spelled(sample, format.width()) == if sample >= 0 {
            sample as int
        } else {
            sample + 256 * place_value(format.width() - 1)
        },
{
    let s = sample as int;
    let v = if s >= 0 {
        s
    } else {
        s + 256 * place_value(format.width() - 1)
    };
    if s < 0 {
        match format {
            SampleFormat::S16 => {
                lemma_byte_ignores_higher(s, 0x100, 0);
                lemma_byte_ignores_higher(s, 1, 1);
            },
            SampleFormat::S24 => {
                lemma_byte_ignores_higher(s, 0x1_0000, 0);
                lemma_byte_ignores_higher(s, 0x100, 1);
                lemma_byte_ignores_higher(s, 1, 2);
            },
            SampleFormat::S32 => {
                lemma_byte_ignores_higher(s, 0x100_0000, 0);
                lemma_byte_ignores_higher(s, 0x1_0000, 1);
                lemma_byte_ignores_higher(s, 0x100, 2);
                lemma_byte_ignores_higher(s, 1, 3);
            },
        }
    }
    lemma_bytes_of_image(v);
    reveal_with_fuel(spelled, 5);
    assert(le_byte(sample, 0) == (v / 1) % 256);
    assert(le_byte(sample, 1) == (v / 0x100) % 256);
    match format {
        SampleFormat::S16 => {},
        SampleFormat::S24 => {
            assert(le_byte(sample, 2) == (v / 0x1_0000) % 256);
        },
        SampleFormat::S32 => {
            assert(le_byte(sample, 2) == (v / 0x1_0000) % 256);
            assert(le_byte(sample, 3) == (v / 0x100_0000) % 256);
        },
    }
}

/// Byte `k` of `sample`.
fn sample_byte(sample: i32, k: usize) -> (byte: u8)
    requires
        k < 4,
    ensures
        byte == le_byte(sample, k as int),
{
    let image: u64 = (sample as i64 + 0x1_0000_0000) as u64;
    let place: u64 = if k == 0 {
        1
    } else if k == 1 {
        0x100
    } else if k == 2 {
        0x1_0000
    } else {
        0x100_0000
    };
    proof {
        lemma_byte_ignores_higher(
            sample as int,
            if k == 0 {
                0x100_0000int
            } else if k == 1 {
                0x1_0000int
            } else if k == 2 {
                0x100int
            } else {
                1int
            },
            k as int,
        );
        assert(place == place_value(k as int));
        assert(image == sample + 0x1_0000_0000);
    }
    ((image / place) % 256) as u8
}

/// A decoded block of samples.
#[derive(Debug, PartialEq, Eq)]
pub struct SampleBlock {
    channels: u32,
    frames: u32,
    samples: Vec<i32>,
}

impl View for SampleBlock {
    type V = BlockView;

    closed spec fn view(&self) -> BlockView {
        BlockView {
            channels: self.channels as nat,
            frames: self.frames as nat,
            samples: self.samples@,
        }
    }
}

impl SampleBlock {
    #[verifier::type_invariant]
    spec fn well_formed(self) -> bool {
        self.samples@.len() == self.channels * self.frames
    }

    /// A block of `frames` frames in `channels` channels, from samples stored
    /// channel after channel. `None` where the samples are not exactly one per
    /// channel and frame.
    pub fn new(channels: u32, frames: u32, samples: Vec<i32>) -> (block: Option<SampleBlock>)
        ensures
            block is Some <==> samples@.len() == channels * frames,
            block is Some ==> block->Some_0@ == (BlockView {
                channels: channels as nat,
                frames: frames as nat,
                samples: samples@,
            }) && block->Some_0@.complete(),
    {
        assert(channels * frames <= u64::MAX) by (nonlinear_arith)
            requires
                channels <= u32::MAX,
                frames <= u32::MAX,
        ;
        if samples.len() as u64 == (channels as u64) * (frames as u64) {
            Some(SampleBlock { channels, frames, samples })
        } else {
            None
        }
    }

    pub fn channels(&self) -> (n: u32)
        ensures
            n == self@.channels,
    {
        self.channels
    }

    pub fn frames(&self) -> (n: u32)
        ensures
            n == self@.frames,
    {
        self.frames
    }

    /// The sample of `channel` at `frame`, where the block has one.
    pub fn sample(&self, channel: u32, frame: u32) -> (s: Option<i32>)
        ensures
            s == if channel < self@.channels && frame < self@.frames {
                Some(self@.sample(channel as int, frame as int))
            } else {
                None
            },
    {
        proof {
            use_type_invariant(self);
            assert(self.samples.len() == self.samples@.len());
        }
        if channel < self.channels && frame < self.frames {
            assert(channel * self.frames + frame < self.channels * self.frames) by (nonlinear_arith)
                requires
                    channel < self.channels,
                    frame < self.frames,
            ;
            assert(0 <= channel * self.frames) by (nonlinear_arith);
            Some(self.samples[channel as usize * self.frames as usize + frame as usize])
        } else {
            None
        }
    }

    /// Gives the storage back, so that the next block can be decoded into it.
    pub fn into_samples(self) -> (samples: Vec<i32>)
        ensures
            samples@ == self@.samples,
    {
        self.samples
    }

    /// The device buffer for this block in `format`.
    pub fn to_bytes(&self, format: SampleFormat) -> (bytes: Vec<u8>)
        ensures
            bytes@ == interleaved(self@, format.width()),
            bytes@.len() == self@.frames * self@.channels * format.width(),
            forall|frame: int, channel: int, k: int|
                0 <= frame < self@.frames && 0 <= channel < self@.channels && 0 <= k
                    < format.width() ==> #[trigger] bytes@[byte_offset(
                    self@.channels,
                    format.width(),
                    frame,
                    channel,
                    k,
                )] == le_byte(self@.sample(channel, frame), k),
    {
        proof {
            use_type_invariant(self);
        }
        let width = format.bytes_per_sample();
        let frames = self.frames as usize;
        let channels = self.channels as usize;
        let ghost block = self@;
        let ghost w = format.width();
        let mut bytes: Vec<u8> = Vec::new();
        let mut f: usize = 0;
        while f < frames
            invariant
                f <= frames,
                frames == block.frames,
                channels == block.channels,
                width == w,
                2 <= w <= 4,
                block == self@,
                self.samples.len() == channels * frames,
                bytes@.len() == f * channels * w,
                forall|i: int| 0 <= i < bytes@.len() ==> bytes@[i] == interleaved_byte(block, w, i),
            decreases frames - f,
        {
            let mut c: usize = 0;
            assert(f * channels * w == (f * channels + 0) * w) by (nonlinear_arith);
            while c < channels
                invariant
                    f < frames,
                    c <= channels,
                    frames == block.frames,
                    channels == block.channels,
                    width == w,
                    2 <= w <= 4,
                    block == self@,
                    self.samples.len() == channels * frames,
                    bytes@.len() == (f * channels + c) * w,
                    forall|i: int|
                        0 <= i < bytes@.len() ==> bytes@[i] == interleaved_byte(block, w, i),
                decreases channels - c,
            {
                assert(c * frames + f < channels * frames) by (nonlinear_arith)
                    requires
                        c < channels,
                        f < frames,
                ;
                assert(0 <= c * frames) by (nonlinear_arith);
                let s = self.samples[c * frames + f];
                assert(s == block.sample(c as int, f as int));
                let mut k: usize = 0;
                while k < width
                    invariant
                        f < frames,
                        c < channels,
                        k <= width,
                        channels == block.channels,
                        width == w,
                        2 <= w <= 4,
                        s == block.sample(c as int, f as int),
                        bytes@.len() == (f * channels + c) * w + k,
                        forall|i: int|
                            0 <= i < bytes@.len() ==> bytes@[i] == interleaved_byte(block, w, i),
                    decreases width - k,
                {
                    proof {
                        lemma_offset_parts(block.channels, w, f as int, c as int, k as int);
                    }
                    bytes.push(sample_byte(s, k));
                    k += 1;
                }
                assert((f * channels + c) * w + w == (f * channels + (c + 1)) * w)
                    by (nonlinear_arith);
                c += 1;
            }
            assert((f * channels + channels) * w == (f + 1) * channels * w) by (nonlinear_arith);
            f += 1;
        }
        proof {
            assert(f * channels * w == block.frames * block.channels * w);
            assert(bytes@ =~= interleaved(block, w));
            assert forall|frame: int, channel: int, k: int|
                0 <= frame < block.frames && 0 <= channel < block.channels && 0 <= k
                    < w implies #[trigger] bytes@[byte_offset(block.channels, w, frame, channel, k)]
                == le_byte(block.sample(channel, frame), k) by {
                law_interleaved_layout(block, w, frame, channel, k);
            }
        }
        bytes
    }
}

} // verus!
