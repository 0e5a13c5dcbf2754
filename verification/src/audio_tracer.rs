//! Collects audio, for a file to be written of it.

use vstd::prelude::*;

use crate::audio::AudioFormat;
use crate::audio::AudioFrame;
use crate::audio::FrameView;
use crate::playback::method::frames_view;

verus! {

/// Collects frames of audio for a file.
pub struct AudioTracer {
    filename: String,
    frames: Vec<AudioFrame>,
}

impl View for AudioTracer {
    type V = Seq<FrameView>;

    closed spec fn view(&self) -> Seq<FrameView> {
        frames_view(self.frames@)
    }
}

/// The samples of all frames, one after the other.
pub open spec fn all_samples(frames: Seq<FrameView>) -> Seq<i16>
    decreases frames.len(),
{
    if frames.len() == 0 {
        Seq::empty()
    } else {
        all_samples(frames.drop_last()) + frames.last().samples
    }
}

/// What a file is written of: 16 bit samples in one format.
pub struct Recording {
    pub format: AudioFormat,
    pub samples: Vec<i16>,
}

impl AudioTracer {
    /// The name of the file.
    pub closed spec fn name(&self) -> Seq<char> {
        self.filename@
    }

    /// The name of the file.
    pub fn filename(&self) -> (r: &str)
        ensures
            r@ == self.name(),
    {
        self.filename.as_str()
    }

    /// Nothing collected yet, for a file with the given name.
    pub fn new(filename: String) -> (r: AudioTracer)
        ensures
            r@ == Seq::<FrameView>::empty(),
            r.name() == filename@,
    {
        let r = AudioTracer { filename, frames: Vec::new() };
        assert(r@ =~= Seq::<FrameView>::empty());
        r
    }

    /// Collects a frame.
    pub fn capture_frame(&mut self, frame: AudioFrame)
        ensures
            final(self)@ == old(self)@.push(frame@),
            final(self).name() == old(self).name(),
    {
        self.frames.push(frame);
        assert(self@ =~= old(self)@.push(frame@));
    }

    /// What the file is to be written of: all samples, in the format of the first frame. There is
    /// no file if nothing was collected.
    pub fn write_file(&self) -> (r: Option<Recording>)
        ensures
            r is Some <==> self@.len() > 0,
            r matches Some(recording) ==> recording.format == self@[0].format
                && recording.samples@ == all_samples(self@),
    {
        let ghost all = frames_view(self.frames@);
        if self.frames.len() == 0 {
            return None;
        }
        let format = self.frames[0].format;
        let mut samples: Vec<i16> = Vec::new();
        let mut i: usize = 0;
        assert(all[0] == self.frames@[0]@);
        assert(all.take(0).len() == 0);
        while i < self.frames.len()
            invariant
                i <= self.frames@.len(),
                all == frames_view(self.frames@),
                samples@ == all_samples(all.take(i as int)),
            decreases self.frames@.len() - i,
        {
            proof {
                assert(all.take(i + 1).drop_last() =~= all.take(i as int));
                assert(all.take(i + 1).last() == self.frames@[i as int]@);
            }
            let ghost before = samples@;
            samples.extend_from_slice(self.frames[i].samples.as_slice());
            assert(samples@ =~= before + self.frames@[i as int].samples@);
            i += 1;
        }
        assert(all.take(i as int) =~= all);
        Some(Recording { format, samples })
    }
}

/// A recording holds the samples of the frames one after the other.
pub proof fn law_recordings_grow(frames: Seq<FrameView>, frame: FrameView)
    ensures
        all_samples(Seq::empty()).len() == 0,
        all_samples(frames.push(frame)) == all_samples(frames) + frame.samples,
{
    assert(frames.push(frame).drop_last() =~= frames);
}

/// A recording has the format of the first frame and the samples of all of them. Without frames there
/// is none.
pub proof fn law_recordings(
    tracer: AudioTracer,
    r: Option<Recording>,
    other: &mut AudioTracer,
    frame: AudioFrame,
)
    requires
        call_ensures(AudioTracer::write_file, (&tracer,), r),
        call_ensures(AudioTracer::capture_frame, (other, frame), ()),
    ensures
        r is None <==> tracer@.len() == 0,
        r matches Some(recording) ==> recording.format == tracer@[0].format && recording.samples@
            == all_samples(tracer@),
        final(other)@.len() == old(other)@.len() + 1,
        final(other)@.last().samples == frame.samples@ && final(other)@.last().format
            == frame.format,
        all_samples(final(other)@) == all_samples(old(other)@) + frame.samples@,
        final(other).name() == old(other).name(),
{
    law_recordings_grow(old(other)@, frame@);
    assert(frame@.samples == frame.samples@);
}

} // verus!
