//! Audio: formats, frames of 16 bit samples, and their bytes.

use vstd::prelude::*;

verus! {

/// How audio samples are laid out.
#[derive(Debug, Clone, Copy, PartialEq, Eq, Structural)]
pub struct AudioFormat {
    /// The number of channels, whose samples are interleaved.
    pub channels: u16,
    /// The number of samples per second in each channel.
    pub sample_rate: u32,
}

impl AudioFormat {
    /// A format with the given channels and sample rate.
    pub fn new(channels: u16, sample_rate: u32) -> (r: AudioFormat)
        ensures
            r == (AudioFormat { channels, sample_rate }),
    {
        AudioFormat { channels, sample_rate }
    }

    /// Whether the format describes any audio at all.
    pub open spec fn valid(self) -> bool {
        self.channels > 0 && self.sample_rate > 0
    }
}

/// Consecutive samples in one format.
#[derive(Debug)]
pub struct AudioFrame {
    pub format: AudioFormat,
    pub samples: Vec<i16>,
}

/// The samples of a frame, as a sequence.
pub struct FrameView {
    pub format: AudioFormat,
    pub samples: Seq<i16>,
}

impl View for AudioFrame {
    type V = FrameView;

    open spec fn view(&self) -> FrameView {
        FrameView { format: self.format, samples: self.samples@ }
    }
}

/// The sample as an unsigned 16 bit number, in two's complement.
pub open spec fn sample_code(sample: i16) -> int {
    if sample >= 0 {
        sample as int
    } else {
        sample + 65536
    }
}

/// The bytes of the samples, each sample's low byte first.
pub open spec fn le_bytes(samples: Seq<i16>) -> Seq<u8> {
    Seq::new(
        2 * samples.len(),
        |i: int|
            if i % 2 == 0 {
                (sample_code(samples[i / 2]) % 256) as u8
            } else {
                (sample_code(samples[i / 2]) / 256) as u8
            },
    )
}

/// The sample that two bytes stand for.
pub open spec fn sample_of(low: u8, high: u8) -> i16 {
    let code = low as int + 256 * (high as int);
    if code < 32768 {
        code as i16
    } else {
        (code - 65536) as i16
    }
}

/// The samples that the bytes stand for, low bytes first. A single byte at the end is dropped.
pub open spec fn samples_of(bytes: Seq<u8>) -> Seq<i16> {
    Seq::new(bytes.len() / 2, |i: int| sample_of(bytes[2 * i], bytes[2 * i + 1]))
}

/// Writes samples as bytes, low bytes first.
pub fn to_le_bytes(samples: &Vec<i16>) -> (r: Vec<u8>)
    ensures
        r@ == le_bytes(samples@),
{
    let mut r: Vec<u8> = Vec::new();
    let mut i: usize = 0;
    while i < samples.len()
        invariant
            i <= samples@.len(),
            r@.len() == 2 * i,
            forall|k: int| 0 <= k < 2 * i ==> r@[k] == le_bytes(samples@)[k],
        decreases samples@.len() - i,
    {
        let sample: i32 = samples[i] as i32;
        let code: i32 = if sample >= 0 {
            sample
        } else {
            sample + 65536
        };
        r.push((code % 256) as u8);
        r.push((code / 256) as u8);
        i += 1;
    }
    assert(r@ =~= le_bytes(samples@));
    r
}

/// Reads samples from bytes, low bytes first. A single byte at the end is dropped.
pub fn from_le_bytes(bytes: &Vec<u8>) -> (r: Vec<i16>)
    ensures
        r@ == samples_of(bytes@),
{
    let mut r: Vec<i16> = Vec::new();
    let n: usize = bytes.len() / 2;
    let mut i: usize = 0;
    while i < n
        invariant
            i <= n,
            n == bytes@.len() / 2,
            bytes@.len() <= usize::MAX,
            r@.len() == i,
            forall|k: int| 0 <= k < i ==> r@[k] == samples_of(bytes@)[k],
        decreases n - i,
    {
        let low: i32 = bytes[2 * i] as i32;
        let high: i32 = bytes[2 * i + 1] as i32;
        let code: i32 = low + 256 * high;
        let sample: i16 = if code < 32768 {
            code as i16
        } else {
            (code - 65536) as i16
        };
        r.push(sample);
        i += 1;
    }
    assert(r@ =~= samples_of(bytes@));
    r
}

/// Reading back the bytes of samples gives the same samples.
pub proof fn lemma_samples_round_trip(samples: Seq<i16>)
    ensures
        samples_of(le_bytes(samples)) == samples,
{
    assert forall|i: int| 0 <= i < samples.len() implies samples_of(le_bytes(samples))[i]
        == samples[i] by {
        assert((2 * i) / 2 == i && (2 * i + 1) / 2 == i);
    }
    assert(samples_of(le_bytes(samples)) =~= samples);
}

/// How long `count` interleaved samples last, in whole nanoseconds.
pub open spec fn duration_nanos(format: AudioFormat, count: nat) -> int
    recommends
        format.valid(),
{
    (count * 1_000_000_000) as int / (format.channels * format.sample_rate)
}

impl AudioFrame {
    /// A frame from bytes, low bytes first.
    pub fn from_le_bytes(format: AudioFormat, bytes: &Vec<u8>) -> (r: AudioFrame)
        ensures
            r@ == (FrameView { format, samples: samples_of(bytes@) }),
    {
        AudioFrame { format, samples: from_le_bytes(bytes) }
    }

    /// The bytes of the samples, low bytes first.
    pub fn to_le_bytes(&self) -> (r: Vec<u8>)
        ensures
            r@ == le_bytes(self@.samples),
    {
        to_le_bytes(&self.samples)
    }

    /// How long the frame lasts, in whole nanoseconds.
    pub fn duration(&self) -> (r: u128)
        requires
            self.format.valid(),
        ensures
            r == duration_nanos(self.format, self@.samples.len()),
    {
        assert(0 < self.format.channels * self.format.sample_rate <= 65535 * 4294967295)
            by (nonlinear_arith)
            requires
                0 < self.format.channels <= 65535,
                0 < self.format.sample_rate <= 4294967295,
        ;
        let rate: u64 = self.format.channels as u64 * self.format.sample_rate as u64;
        let count: u128 = self.samples.len() as u128 * 1_000_000_000u128;
        count / (rate as u128)
    }
}

/// The parts of `bytes` with 8192 bytes each; the last part holds what is left.
pub open spec fn chunks_8192(bytes: Seq<u8>) -> Seq<Seq<u8>>
    decreases bytes.len(),
{
    if bytes.len() == 0 {
        Seq::empty()
    } else if bytes.len() <= 8192 {
        seq![bytes]
    } else {
        seq![bytes.take(8192)] + chunks_8192(bytes.skip(8192))
    }
}

/// The contents of a list of byte vectors.
pub open spec fn byte_seqs(v: Seq<Vec<u8>>) -> Seq<Seq<u8>> {
    v.map_values(|b: Vec<u8>| b@)
}

/// Cuts bytes into parts of at most 8192 bytes.
pub fn chunk_8192(bytes: Vec<u8>) -> (r: Vec<Vec<u8>>)
    ensures
        byte_seqs(r@) == chunks_8192(bytes@),
{
    let mut r: Vec<Vec<u8>> = Vec::new();
    let ghost all = bytes@;
    let mut rest = bytes;
    while rest.len() > 8192
        invariant
            byte_seqs(r@) + chunks_8192(rest@) == chunks_8192(all),
        decreases rest@.len(),
    {
        let ghost before = byte_seqs(r@);
        let ghost whole = rest@;
        let tail = rest.split_off(8192);
        r.push(rest);
        assert(byte_seqs(r@) =~= before.push(whole.take(8192)));
        assert(tail@ =~= whole.skip(8192));
        assert(byte_seqs(r@) + chunks_8192(tail@) =~= before + chunks_8192(whole));
        rest = tail;
    }
    let ghost before = byte_seqs(r@);
    if rest.len() > 0 {
        r.push(rest);
        assert(byte_seqs(r@) =~= before + seq![rest@]);
    } else {
        assert(byte_seqs(r@) =~= before + chunks_8192(rest@));
    }
    r
}

/// Cutting bytes into parts keeps every byte in its place.
pub proof fn law_chunks_keep_bytes(bytes: Seq<u8>)
    ensures
        chunks_8192(bytes).flatten() == bytes,
        forall|i: int|
            0 <= i < chunks_8192(bytes).len() ==> 0 < #[trigger] chunks_8192(bytes)[i].len() <= 8192,
    decreases bytes.len(),
{
    let parts = chunks_8192(bytes);
    if bytes.len() == 0 {
        assert(parts.flatten() =~= bytes);
    } else if bytes.len() <= 8192 {
        assert(parts.drop_first() =~= Seq::<Seq<u8>>::empty());
        assert(parts.first() == bytes);
        assert(parts.drop_first().flatten() =~= Seq::<u8>::empty());
        assert(parts.flatten() =~= bytes);
    } else {
        law_chunks_keep_bytes(bytes.skip(8192));
        assert(parts.drop_first() =~= chunks_8192(bytes.skip(8192)));
        assert(parts.flatten() =~= bytes.take(8192) + bytes.skip(8192));
        assert(parts.flatten() =~= bytes);
        assert forall|i: int| 0 <= i < parts.len() implies 0 < #[trigger] parts[i].len() <= 8192 by {
            if i > 0 {
                assert(parts[i] == chunks_8192(bytes.skip(8192))[i - 1]);
            }
        }
    }
}

/// The bytes of samples: two for each, the low one first, which together make the sample, or the
/// sample and 65536 if it is negative.
pub proof fn law_bytes_of_samples(samples: Seq<i16>)
    ensures
        le_bytes(samples).len() == 2 * samples.len(),
        forall|i: int|
            0 <= i < samples.len() ==> {
                let code = le_bytes(samples)[2 * i] as int + 256 * (le_bytes(samples)[2 * i
                    + 1] as int);
                code == #[trigger] samples[i] || code == samples[i] + 65536
            },
{
    assert forall|i: int| 0 <= i < samples.len() implies {
        let code = le_bytes(samples)[2 * i] as int + 256 * (le_bytes(samples)[2 * i + 1] as int);
        code == #[trigger] samples[i] || code == samples[i] + 65536
    } by {
        assert((2 * i) / 2 == i);
        assert((2 * i + 1) / 2 == i);
    }
}

/// The samples of bytes: one for each two, a last one that is alone being dropped.
pub proof fn law_samples_of_bytes(bytes: Seq<u8>)
    ensures
        bytes.len() - 1 <= 2 * samples_of(bytes).len() <= bytes.len(),
        forall|i: int|
            0 <= i < samples_of(bytes).len() ==> {
                let code = bytes[2 * i] as int + 256 * (bytes[2 * i + 1] as int);
                let sample = #[trigger] samples_of(bytes)[i];
                sample == code || sample == code - 65536
            },
{
}

/// A duration is the time that the samples take, cut to whole nanoseconds: a second holds the sample
/// rate for each channel.
pub proof fn law_duration(format: AudioFormat, count: nat)
    requires
        format.valid(),
    ensures
        ({
            let per_second = format.channels * format.sample_rate;
            let d = duration_nanos(format, count);
            &&& d >= 0
            &&& d * per_second <= count * 1_000_000_000
            &&& count * 1_000_000_000 < (d + 1) * per_second
        }),
{
    let a = (count * 1_000_000_000) as int;
    let b = (format.channels * format.sample_rate) as int;
    assert(b > 0) by (nonlinear_arith)
        requires
            b == format.channels * format.sample_rate,
            format.channels > 0,
            format.sample_rate > 0,
    ;
    assert(a / b >= 0 && (a / b) * b <= a < (a / b + 1) * b) by (nonlinear_arith)
        requires
            a >= 0,
            b > 0,
    ;
}

/// All chunks but the last one hold 8192 bytes.
pub proof fn law_chunks_are_full(bytes: Seq<u8>)
    ensures
        forall|i: int|
            0 <= i < chunks_8192(bytes).len() - 1 ==> #[trigger] chunks_8192(bytes)[i].len() == 8192,
    decreases bytes.len(),
{
    if bytes.len() > 8192 {
        let rest = chunks_8192(bytes.skip(8192));
        law_chunks_are_full(bytes.skip(8192));
        assert forall|i: int| 0 <= i < chunks_8192(bytes).len() - 1 implies #[trigger] chunks_8192(
            bytes,
        )[i].len() == 8192 by {
            if i > 0 {
                assert(chunks_8192(bytes)[i] == rest[i - 1]);
            }
        }
    }
}

/// A frame shows its format and its samples, and a list of chunks shows the bytes of each.
pub proof fn law_frames_are_shown(frame: AudioFrame, chunks: Seq<Vec<u8>>)
    ensures
        frame@.format == frame.format,
        frame@.samples == frame.samples@,
        byte_seqs(chunks).len() == chunks.len(),
        forall|i: int| 0 <= i < chunks.len() ==> #[trigger] byte_seqs(chunks)[i] == chunks[i]@,
{
}

/// The time that samples take fits into 128 bits.
pub proof fn lemma_duration_fits(format: AudioFormat, count: nat)
    requires
        format.valid(),
        count <= usize::MAX,
    ensures
        ({
            let d = duration_nanos(format, count);
            let per_second = format.channels * format.sample_rate;
            &&& 0 <= d <= u128::MAX
            &&& d * per_second <= count * 1_000_000_000
            &&& count * 1_000_000_000 < (d + 1) * per_second
        }),
{
    law_duration(format, count);
    let d = duration_nanos(format, count);
    let a = (count * 1_000_000_000) as int;
    let b = (format.channels * format.sample_rate) as int;
    assert(b >= 1) by (nonlinear_arith)
        requires
            b == format.channels * format.sample_rate,
            format.channels >= 1,
            format.sample_rate >= 1,
    ;
    assert(d <= a) by (nonlinear_arith)
        requires
            d * b <= a,
            b >= 1,
            d >= 0,
    ;
    assert(a <= usize::MAX * 1_000_000_000);
}

} // verus!
