//! Apple platforms: display capabilities and the audio outputs.

use crate::audio::rate::UNIT_RATE;
use crate::audio::ring::{after_read, read_samples, readable_frames, AudioRingBuffer};
use crate::audio::timeline::is_media_offset;
use crate::audio::volume::{
    apply_volume_ramp, is_multiply, is_ramp, ramp_frames, ramped_sample, reached_gain,
};
use crate::pcm::SILENCE;
use crate::time::Duration;
use vstd::prelude::*;

pub mod coreaudio;
pub mod iosaudio;

verus! {

/// What a display offers for extended dynamic range. The headroom is a
/// floating point bit pattern.
#[derive(Debug, Clone, Copy, PartialEq, Eq, Structural)]
pub struct DisplayHdrCapabilities {
    pub supports_edr: bool,
    pub maximum_potential_edr_headroom: u64,
}

impl Default for DisplayHdrCapabilities {
    fn default() -> (capabilities: Self)
        ensures
            !capabilities.supports_edr,
            capabilities.maximum_potential_edr_headroom == UNIT_RATE,
    {
        DisplayHdrCapabilities { supports_edr: false, maximum_potential_edr_headroom: UNIT_RATE }
    }
}

#[derive(Debug, Clone, Copy, PartialEq, Eq, Structural)]
pub enum AppleDecodeBackend {
    VideoToolbox,
    Software,
}

/// What a device callback gets to play, before the volume: the queue's audio,
/// or silence while there is no format.
pub open spec fn played_samples(ring: crate::audio::ring::RingView, len: nat) -> Seq<u32> {
    if ring.format is Some {
        read_samples(ring, len)
    } else {
        Seq::new(len, |i: int| SILENCE)
    }
}

/// How many leading frames of what a device callback plays carry audio.
pub open spec fn audible_frames(ring: crate::audio::ring::RingView, len: nat) -> nat {
    if ring.format is Some {
        readable_frames(ring, len / ring.channels())
    } else {
        0
    }
}

/// Fills a device buffer from the queue and ramps the volume from the gain
/// that the previous buffer ended on. Only the frames the queue supplied
/// advance the ramp. Returns the gain that was reached.
pub fn fill_device_buffer<
    F: Fn(Duration, usize, u32, u64) -> Duration,
    R: Fn(u32, u32, usize, usize) -> u32,
    M: Fn(u32, u32) -> u32,
>(
    ring: &mut AudioRingBuffer,
    samples: &mut [u32],
    channels: usize,
    from: u32,
    to: u32,
    offset: &F,
    ramp: &R,
    multiply: &M,
) -> (reached: u32)
    requires
        old(ring).well_formed(),
        is_media_offset(*offset),
        is_ramp(*ramp),
        is_multiply(*multiply),
        old(ring)@.read_frames + old(samples)@.len() <= u64::MAX,
        old(ring)@.underflow_frames + old(samples)@.len() <= u64::MAX,
    ensures
        final(ring).well_formed(),
        final(ring)@ == if old(ring)@.format is Some {
            after_read(
                old(ring)@,
                old(samples)@.len() / old(ring)@.channels(),
                *offset,
            )
        } else {
            old(ring)@
        },
        reached == reached_gain(
            *ramp,
            ramp_frames(old(samples)@.len(), channels),
            from,
            to,
            audible_frames(old(ring)@, old(samples)@.len()) as usize,
        ),
        final(samples)@ == Seq::new(
            old(samples)@.len(),
            |i: int|
                ramped_sample(
                    *ramp,
                    *multiply,
                    played_samples(old(ring)@, old(samples)@.len()),
                    i,
                    channels,
                    from,
                    to,
                            audible_frames(old(ring)@, old(samples)@.len()) as usize,
                ),
        ),
{
    let ghost before = ring@;
    let ghost len = samples@.len();
    let audible: usize = match ring.read_interleaved(samples, offset) {
        Ok(read) => read.frames,
        Err(_) => {
            silence(samples);
            0
        },
    };
    assert(samples@ =~= played_samples(before, len));
    apply_volume_ramp(samples, channels, from, to, audible, ramp, multiply)
}

/// Makes every sample silent.
fn silence(samples: &mut [u32])
    ensures
        final(samples)@ == Seq::new(old(samples)@.len(), |i: int| SILENCE),
{
    let total: usize = samples.len();
    let mut i: usize = 0;
    while i < total
        invariant
            i <= total,
            samples@.len() == total,
            forall|j: int| 0 <= j < i ==> samples@[j] == SILENCE,
        decreases total - i,
    {
        samples[i] = SILENCE;
        i = i + 1;
    }
    assert(samples@ =~= Seq::new(total as nat, |i: int| SILENCE));
}

/// A device that has no format plays silence, none of it counted as heard. With a
/// format it plays the oldest samples, and as many frames are heard as there were,
/// up to those asked for.
pub proof fn lemma_unconfigured_device_plays_silence(
    ring: crate::audio::ring::RingView,
    config: crate::audio::AudioRingBufferConfig,
    frames: nat,
)
    requires
        ring.well_formed(config),
    ensures
        ({
            let len = frames * ring.channels();
            let played = played_samples(ring, len);
            let heard = audible_frames(ring, len);
            &&& played.len() == len
            &&& ring.format is None ==> heard == 0
            &&& ring.format is None ==> forall|i: int| 0 <= i < len ==> #[trigger] played[i] == 0
            &&& ring.format is Some ==> heard == if frames <= ring.queued_frames() {
                frames
            } else {
                ring.queued_frames()
            }
            &&& ring.format is Some ==> forall|i: int|
                0 <= i < len ==> #[trigger] played[i] == if i < heard * ring.channels() {
                    ring.samples[i]
                } else {
                    0
                }
        }),
{
    let channels = ring.channels() as int;
    if ring.format is Some {
        assert((frames * channels) / channels == frames) by (nonlinear_arith)
            requires
                channels > 0,
        ;
    }
}

} // verus!
