//! The header of audio that goes on without end.

use vstd::prelude::*;

use hound::SampleFormat;
use hound::WavSpec;

use crate::audio::AudioFormat;

verus! {

/// The bytes of a 16 bit number, low byte first.
pub open spec fn le16(n: int) -> Seq<u8> {
    seq![(n % 256) as u8, (n / 256 % 256) as u8]
}

/// The bytes of a 32 bit number, low byte first.
pub open spec fn le32(n: int) -> Seq<u8> {
    le16(n % 65536) + le16(n / 65536)
}

/// The part of the header that describes the samples: channels, samples and bytes per second, and
/// bytes per sample of all channels.
pub open spec fn wave_format(format: AudioFormat) -> Seq<u8> {
    le16(format.channels as int) + le32(format.sample_rate as int) + le32(
        format.sample_rate * 2 * format.channels,
    ) + le16(2 * format.channels)
}

/// `RIFF`, the length that stands for no end, `WAVE`, `fmt `.
pub open spec fn riff_start() -> Seq<u8> {
    seq![0x52u8, 0x49, 0x46, 0x46] + le32(0xffff_ffff) + seq![0x57u8, 0x41, 0x56, 0x45] + seq![
        0x66u8,
        0x6d,
        0x74,
        0x20,
    ]
}

/// `data`, the length that stands for no end.
pub open spec fn data_start() -> Seq<u8> {
    seq![0x64u8, 0x61, 0x74, 0x61] + le32(0xffff_ffff)
}

/// One bit for each channel, but for those that have none.
pub open spec fn channel_mask(channels: nat) -> int {
    if channels > 18 {
        0x3ffff
    } else {
        vstd::arithmetic::power2::pow2(channels) - 1
    }
}

/// The identifier of integer samples.
pub open spec fn pcm_guid() -> Seq<u8> {
    seq![0x01u8, 0, 0, 0, 0, 0, 0x10, 0, 0x80, 0, 0, 0xaa, 0, 0x38, 0x9b, 0x71]
}

/// The header of a file with 16 bit samples and no end. More than two channels take a longer one.
pub open spec fn wav_header(format: AudioFormat) -> Seq<u8> {
    if format.channels <= 2 {
        riff_start() + le32(16) + le16(1) + wave_format(format) + le16(16) + data_start()
    } else {
        riff_start() + le32(40) + le16(0xfffe) + wave_format(format) + le16(16) + le16(22) + le16(
            16,
        ) + le32(channel_mask(format.channels as nat)) + pcm_guid() + data_start()
    }
}

/// Whether there is a header for a format: the bytes per second fit into it.
pub open spec fn has_header(format: AudioFormat) -> bool {
    format.valid() && format.sample_rate * 2 * format.channels <= u32::MAX
}

/// Calls `WavSpec::into_header_for_infinite_file` of the `hound` crate for 16 bit integer samples,
/// which writes the header byte by byte as `wav_header` says.
#[verifier::external_body]
pub(crate) fn infinite_header(format: AudioFormat) -> (r: Vec<u8>)
    requires
        has_header(format),
    ensures
        r@ == wav_header(format),
{
    WavSpec {
        channels: format.channels,
        sample_rate: format.sample_rate,
        bits_per_sample: 16,
        sample_format: SampleFormat::Int,
    }.into_header_for_infinite_file()
}

} // verus!
