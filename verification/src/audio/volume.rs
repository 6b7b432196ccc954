//! Volume: constant gain and per-frame gain ramps over interleaved samples.
//!
//! Samples and gains are floating point bit patterns. The arithmetic on them
//! is handed in: `multiply` scales a sample by a gain, and `ramp` gives the gain
//! after so many of the ramp's frames. This module decides which sample gets
//! which gain.

use crate::float::{
    equal, same_number, FloatBits, INFINITY, NEGATIVE_INFINITY, NEGATIVE_ZERO, ZERO,
};
use vstd::arithmetic::div_mod::{lemma_fundamental_div_mod, lemma_fundamental_div_mod_converse};
use vstd::arithmetic::mul::{lemma_mul_inequality, lemma_mul_is_distributive_add_other_way};
use vstd::prelude::*;

verus! {

/// `multiply` accepts everything and depends on its arguments alone.
pub open spec fn is_multiply<M: Fn(u32, u32) -> u32>(multiply: M) -> bool {
    &&& forall|sample: u32, gain: u32| #[trigger] multiply.requires((sample, gain))
    &&& forall|sample: u32, gain: u32, first: u32, second: u32|
        #[trigger] multiply.ensures((sample, gain), first) && #[trigger] multiply.ensures(
            (sample, gain),
            second,
        ) ==> first == second
}

/// The sample that `multiply` makes of `sample`.
pub open spec fn multiplied<M: Fn(u32, u32) -> u32>(multiply: M, sample: u32, gain: u32) -> u32 {
    choose|scaled: u32| multiply.ensures((sample, gain), scaled)
}

/// Full volume.
pub const FULL_VOLUME: FloatBits = 0x3f80_0000;

/// The least gain that counts as full: two steps of precision below it.
pub const NEARLY_FULL: FloatBits = 0x3f7f_fffe;

/// A gain within its range: what is not finite is full volume.
pub open spec fn normalized(volume: FloatBits) -> FloatBits {
    if volume >= NEGATIVE_INFINITY || (INFINITY <= volume < NEGATIVE_ZERO) {
        FULL_VOLUME
    } else if volume > NEGATIVE_ZERO {
        ZERO
    } else if volume == NEGATIVE_ZERO || volume <= FULL_VOLUME {
        volume
    } else {
        FULL_VOLUME
    }
}

/// Brings a volume into the range from zero to one. What is not a finite
/// number is full volume.
pub fn normalize_volume(volume: FloatBits) -> (gain: FloatBits)
    ensures
        gain == normalized(volume),
{
    if volume >= NEGATIVE_INFINITY || (INFINITY <= volume && volume < NEGATIVE_ZERO) {
        FULL_VOLUME
    } else if volume > NEGATIVE_ZERO {
        ZERO
    } else if volume == NEGATIVE_ZERO || volume <= FULL_VOLUME {
        volume
    } else {
        FULL_VOLUME
    }
}

/// A gain is a zero or between zero and one, and normalising it again changes
/// nothing.
pub proof fn lemma_normalized_gain_is_in_range(volume: FloatBits)
    ensures
        normalized(volume) <= FULL_VOLUME || normalized(volume) == NEGATIVE_ZERO,
        normalized(normalized(volume)) == normalized(volume),
{
}

/// Whether a gain changes nothing.
pub open spec fn is_full(gain: FloatBits) -> bool {
    NEARLY_FULL <= gain <= FULL_VOLUME
}

/// The sample after constant gain: full volume leaves it alone.
pub open spec fn scaled<M: Fn(u32, u32) -> u32>(multiply: M, sample: u32, volume: u32) -> u32 {
    if is_full(normalized(volume)) {
        sample
    } else {
        multiplied(multiply, sample, normalized(volume))
    }
}

/// `ramp` accepts everything and depends on its arguments alone.
pub open spec fn is_ramp<R: Fn(u32, u32, usize, usize) -> u32>(ramp: R) -> bool {
    &&& forall|from: u32, to: u32, step: usize, steps: usize| #[trigger]
        ramp.requires((from, to, step, steps))
    &&& forall|from: u32, to: u32, step: usize, steps: usize, first: u32, second: u32|
        #[trigger] ramp.ensures((from, to, step, steps), first) && #[trigger] ramp.ensures(
            (from, to, step, steps),
            second,
        ) ==> first == second
}

/// The gain after `step` of the `steps` frames of a ramp.
pub open spec fn ramp_gain<R: Fn(u32, u32, usize, usize) -> u32>(
    ramp: R,
    from: u32,
    to: u32,
    step: usize,
    steps: usize,
) -> u32 {
    choose|gain: u32| ramp.ensures((from, to, step, steps), gain)
}

/// Applies one gain to every sample from `first` on.
fn apply_volume_from<M: Fn(u32, u32) -> u32>(
    samples: &mut [u32],
    first: usize,
    volume: u32,
    multiply: &M,
)
    requires
        is_multiply(*multiply),
        first <= old(samples)@.len(),
    ensures
        final(samples)@ == Seq::new(
            old(samples)@.len(),
            |i: int|
                if i < first {
                    old(samples)@[i]
                } else {
                    scaled(*multiply, old(samples)@[i], volume)
                },
        ),
{
    let gain: u32 = normalize_volume(volume);
    if NEARLY_FULL <= gain && gain <= FULL_VOLUME {
        return;
    }
    let ghost before = samples@;
    let mut i: usize = first;
    while i < samples.len()
        invariant
            is_multiply(*multiply),
            gain == normalized(volume),
            !is_full(gain),
            first <= i <= samples@.len(),
            samples@.len() == before.len(),
            forall|j: int| 0 <= j < first ==> samples@[j] == before[j],
            forall|j: int|
                first <= j < i ==> samples@[j] == scaled(*multiply, before[j], volume),
            forall|j: int| i <= j < before.len() ==> samples@[j] == before[j],
        decreases samples@.len() - i,
    {
        samples[i] = multiply(samples[i], gain);
        i = i + 1;
    }
}

/// Applies one gain to every sample.
pub fn apply_volume<M: Fn(u32, u32) -> u32>(samples: &mut [u32], volume: u32, multiply: &M)
    requires
        is_multiply(*multiply),
    ensures
        final(samples)@ == Seq::new(
            old(samples)@.len(),
            |i: int| scaled(*multiply, old(samples)@[i], volume),
        ),
{
    apply_volume_from(samples, 0, volume, multiply);
}

/// Whole frames in `samples` interleaved samples; a stream without channels
/// counts as mono.
pub open spec fn ramp_frames(samples: nat, channels: usize) -> nat {
    samples / at_least_one(channels) as nat
}

pub open spec fn at_least_one(channels: usize) -> usize {
    if channels == 0 {
        1
    } else {
        channels
    }
}

/// The gain a ramp reaches. A ramp without frames or between equal gains is
/// at its target; otherwise only the audible frames carry it on.
pub open spec fn reached_gain<R: Fn(u32, u32, usize, usize) -> u32>(
    ramp: R,
    frames: nat,
    from: u32,
    to: u32,
    audible_frames: usize,
) -> u32 {
    let start = normalized(from);
    let target = normalized(to);
    if frames == 0 || same_number(start, target) {
        target
    } else if audible_frames == 0 {
        start
    } else {
        ramp_gain(
            ramp,
            start,
            target,
            if audible_frames <= frames {
                audible_frames
            } else {
                frames as usize
            },
            frames as usize,
        )
    }
}

/// The sample at `index` after a ramp. Audible frames take the gain of their
/// step, inaudible ones are left alone, and a trailing partial frame takes
/// the gain that was reached.
pub open spec fn ramped_sample<
    R: Fn(u32, u32, usize, usize) -> u32,
    M: Fn(u32, u32) -> u32,
>(
    ramp: R,
    multiply: M,
    before: Seq<u32>,
    index: int,
    channels: usize,
    from: u32,
    to: u32,
    audible_frames: usize,
) -> u32 {
    let frames = ramp_frames(before.len(), channels);
    let frame = index / at_least_one(channels) as int;
    let start = normalized(from);
    let target = normalized(to);
    if frames == 0 || same_number(start, target) {
        scaled(multiply, before[index], target)
    } else if audible_frames == 0 {
        before[index]
    } else if frame >= frames {
        scaled(
            multiply,
            before[index],
            reached_gain(ramp, frames, from, to, audible_frames),
        )
    } else if frame < audible_frames {
        multiplied(
            multiply,
            before[index],
            ramp_gain(ramp, start, target, (frame + 1) as usize, frames as usize),
        )
    } else {
        before[index]
    }
}

/// Applies a linear per-frame gain ramp from `from` to `to` across `samples`,
/// returning the gain the ramp actually reached.
///
/// All channels of a frame share one gain step, and equal gains make it
/// constant. `audible_frames` is how many leading frames actually carry audio:
/// the ramp is planned across the full buffer, but a short read only advances
/// part of that plan and only that part is reported back.
pub fn apply_volume_ramp<
    R: Fn(u32, u32, usize, usize) -> u32,
    M: Fn(u32, u32) -> u32,
>(
    samples: &mut [u32],
    channels: usize,
    from: u32,
    to: u32,
    audible_frames: usize,
    ramp: &R,
    multiply: &M,
) -> (reached: u32)
    requires
        is_ramp(*ramp),
        is_multiply(*multiply),
    ensures
        reached == reached_gain(
            *ramp,
            ramp_frames(old(samples)@.len(), channels),
            from,
            to,
            audible_frames,
        ),
        final(samples)@ == Seq::new(
            old(samples)@.len(),
            |i: int|
                ramped_sample(
                    *ramp,
                    *multiply,
                    old(samples)@,
                    i,
                    channels,
                    from,
                    to,
                    audible_frames,
                ),
        ),
{
    let start: u32 = normalize_volume(from);
    let target: u32 = normalize_volume(to);
    proof {
        lemma_normalized_gain_is_in_range(from);
        lemma_normalized_gain_is_in_range(to);
    }
    let channels_used: usize = if channels == 0 {
        1
    } else {
        channels
    };
    let ghost before = samples@;
    let frames: usize = samples.len() / channels_used;
    if frames == 0 || equal(start, target) {
        apply_volume(samples, target, multiply);
        return target;
    }
    let audible: usize = if audible_frames <= frames {
        audible_frames
    } else {
        frames
    };
    if audible == 0 {
        return start;
    }
    proof {
        lemma_fundamental_div_mod(before.len() as int, channels_used as int);
        assert(frames * channels_used == channels_used * frames) by (nonlinear_arith);
        assert(frames * channels_used <= before.len());
    }
    let mut frame: usize = 0;
    let mut base: usize = 0;
    while frame < audible
        invariant
            is_ramp(*ramp),
            is_multiply(*multiply),
            channels_used > 0,
            audible <= frames,
            frames * channels_used <= before.len() <= usize::MAX,
            samples@.len() == before.len(),
            frame <= audible,
            base == frame * channels_used,
            forall|j: int|
                0 <= j < base ==> samples@[j] == multiplied(
                    *multiply,
                    before[j],
                    ramp_gain(*ramp, start, target, (j / channels_used as int + 1) as usize, frames),
                ),
            forall|j: int| base <= j < before.len() ==> samples@[j] == before[j],
        decreases audible - frame,
    {
        let gain: u32 = ramp(start, target, frame + 1, frames);
        proof {
            lemma_mul_inequality(frame + 1, frames as int, channels_used as int);
            lemma_mul_is_distributive_add_other_way(channels_used as int, frame as int, 1);
            assert((frame + 1) * channels_used == base + channels_used);
        }
        let mut channel: usize = 0;
        while channel < channels_used
            invariant
                is_ramp(*ramp),
                is_multiply(*multiply),
                channels_used > 0,
                frame < usize::MAX,
                gain == ramp_gain(*ramp, start, target, (frame + 1) as usize, frames),
                samples@.len() == before.len(),
                channel <= channels_used,
                base == frame * channels_used,
                base + channels_used <= before.len() <= usize::MAX,
                forall|j: int|
                    0 <= j < base + channel ==> samples@[j] == multiplied(
                        *multiply,
                        before[j],
                        ramp_gain(*ramp, start, target, (j / channels_used as int + 1) as usize, frames),
                    ),
                forall|j: int| base + channel <= j < before.len() ==> samples@[j] == before[j],
            decreases channels_used - channel,
        {
            let index: usize = base + channel;
            proof {
                lemma_fundamental_div_mod_converse(
                    index as int,
                    channels_used as int,
                    frame as int,
                    channel as int,
                );
            }
            samples[index] = multiply(samples[index], gain);
            channel = channel + 1;
        }
        base = base + channels_used;
        frame = frame + 1;
    }
    let reached: u32 = ramp(start, target, audible, frames);
    let ghost ramped = samples@;
    proof {
        lemma_mul_inequality(audible as int, frames as int, channels_used as int);
        assert forall|j: int| 0 <= j < before.len() implies {
            &&& (#[trigger] before[j] == before[j])
            &&& (j / channels_used as int >= frames <==> j >= frames * channels_used)
            &&& (j / channels_used as int >= audible <==> j >= audible * channels_used)
        } by {
            lemma_quotient_bound(j, channels_used as int, frames as int);
            lemma_quotient_bound(j, channels_used as int, audible as int);
        }
    }
    apply_volume_from(samples, frames * channels_used, reached, multiply);
    proof {
        assert(samples@ =~= Seq::new(
            before.len(),
            |i: int|
                ramped_sample(
                    *ramp,
                    *multiply,
                    before,
                    i,
                    channels,
                    from,
                    to,
                    audible_frames,
                ),
        )) by {
            assert forall|j: int| 0 <= j < before.len() implies samples@[j] == ramped_sample(
                *ramp,
                *multiply,
                before,
                j,
                channels,
                from,
                to,
                audible_frames,
            ) by {
                assert(before[j] == before[j]);
            }
        }
    }
    reached
}

/// A quotient reaches a bound exactly when the dividend reaches the bound
/// times the divisor.
proof fn lemma_quotient_bound(value: int, divisor: int, bound: int)
    requires
        divisor > 0,
        value >= 0,
    ensures
        value / divisor >= bound <==> value >= bound * divisor,
{
    lemma_fundamental_div_mod(value, divisor);
    let quotient = value / divisor;
    assert(quotient * divisor <= value < (quotient + 1) * divisor) by (nonlinear_arith)
        requires
            value == divisor * quotient + value % divisor,
            0 <= value % divisor < divisor,
            quotient == value / divisor,
    ;
    if quotient >= bound {
        lemma_mul_inequality(bound, quotient, divisor);
    } else {
        lemma_mul_inequality(quotient + 1, bound, divisor);
    }
}

/// A ramp that ends where it began is the same as constant gain.
pub proof fn lemma_constant_ramp_is_constant_gain<
    R: Fn(u32, u32, usize, usize) -> u32,
    M: Fn(u32, u32) -> u32,
>(
    ramp: R,
    multiply: M,
    before: Seq<u32>,
    channels: usize,
    gain: u32,
    audible_frames: usize,
)
    ensures
        forall|i: int|
            0 <= i < before.len() ==> ramped_sample(
                ramp,
                multiply,
                before,
                i,
                channels,
                gain,
                gain,
                audible_frames,
            ) == #[trigger] scaled(multiply, before[i], gain),
        reached_gain(
            ramp,
            ramp_frames(before.len(), channels),
            gain,
            gain,
            audible_frames,
        ) == normalized(gain),
{
    lemma_normalized_gain_is_in_range(gain);
}

/// Frames beyond the audible ones stay as they are unless the gain is
/// constant.
pub proof fn lemma_ramp_leaves_inaudible_frames_alone<
    R: Fn(u32, u32, usize, usize) -> u32,
    M: Fn(u32, u32) -> u32,
>(
    ramp: R,
    multiply: M,
    before: Seq<u32>,
    index: int,
    channels: usize,
    from: u32,
    to: u32,
    audible_frames: usize,
)
    requires
        0 <= index < before.len(),
        !same_number(normalized(from), normalized(to)),
        audible_frames <= index / at_least_one(channels) as int,
        ramp_frames(before.len(), channels) > index / at_least_one(channels) as int,
    ensures
        ramped_sample(ramp, multiply, before, index, channels, from, to, audible_frames)
            == before[index],
{
}

/// A ramp over a buffer without audio makes no progress: every frame stays as
/// it is, and the next ramp begins where this one did.
pub proof fn lemma_silent_ramp_makes_no_progress<
    R: Fn(u32, u32, usize, usize) -> u32,
    M: Fn(u32, u32) -> u32,
>(ramp: R, multiply: M, before: Seq<u32>, channels: usize, from: u32, to: u32)
    requires
        ramp_frames(before.len(), channels) > 0,
        !same_number(normalized(from), normalized(to)),
    ensures
        forall|i: int|
            0 <= i < before.len() ==> ramped_sample(
                ramp,
                multiply,
                before,
                i,
                channels,
                from,
                to,
                0,
            ) == #[trigger] before[i],
        reached_gain(ramp, ramp_frames(before.len(), channels), from, to, 0) == normalized(from),
{
}

/// A volume between zero and one is itself. One below zero is zero and one above is
/// one, and what is no finite number counts as full volume.
pub proof fn lemma_volume_is_held_between_zero_and_one(volume: FloatBits)
    ensures
        volume <= 0x3f80_0000 || volume == 0x8000_0000 ==> normalized(volume) == volume,
        0x3f80_0000 < volume < 0x7f80_0000 ==> normalized(volume) == 0x3f80_0000,
        0x8000_0000 < volume < 0xff80_0000 ==> normalized(volume) == 0,
        0x7f80_0000 <= volume < 0x8000_0000 ==> normalized(volume) == 0x3f80_0000,
        volume >= 0xff80_0000 ==> normalized(volume) == 0x3f80_0000,
{
}

/// Full volume leaves every sample as it is; any other volume multiplies each by it.
pub proof fn lemma_volume_multiplies_each_sample<M: Fn(u32, u32) -> u32>(
    multiply: M,
    sample: u32,
    volume: FloatBits,
    product: u32,
)
    requires
        is_multiply(multiply),
        volume <= 0x3f80_0000,
        multiply.ensures((sample, volume), product),
    ensures
        scaled(multiply, sample, 0x3f80_0000) == sample,
        volume < 0x3f7f_fffe ==> scaled(multiply, sample, volume) == product,
        volume >= 0x3f7f_fffe ==> scaled(multiply, sample, volume) == sample,
{
}

/// While a volume changes, all samples of a frame have one gain, and each frame that
/// is heard is one step further than the frame before it: the first frame is the
/// first step and the last of the block reaches the new volume. What the change has
/// reached is the gain of the last frame that was heard, so that the next block goes
/// on from there.
pub proof fn lemma_ramp_goes_one_step_per_frame<
    R: Fn(u32, u32, usize, usize) -> u32,
    M: Fn(u32, u32) -> u32,
>(
    ramp: R,
    multiply: M,
    before: Seq<u32>,
    channels: usize,
    frame: nat,
    channel: nat,
    from: FloatBits,
    to: FloatBits,
    audible_frames: usize,
    gain: u32,
    product: u32,
)
    requires
        is_ramp(ramp),
        is_multiply(multiply),
        before.len() <= usize::MAX,
        channel < channels,
        frame < audible_frames,
        frame < before.len() / (channels as nat),
        from <= 0x3f80_0000,
        to <= 0x3f80_0000,
        from != to,
        ramp.ensures(
            (from, to, (frame + 1) as usize, (before.len() / (channels as nat)) as usize),
            gain,
        ),
        multiply.ensures((before[(frame * channels + channel) as int], gain), product),
    ensures
        0 <= frame * channels + channel < before.len(),
        ramped_sample(
            ramp,
            multiply,
            before,
            (frame * channels + channel) as int,
            channels,
            from,
            to,
            audible_frames,
        ) == product,
        frame + 1 == audible_frames || frame + 1 == before.len() / (channels as nat)
            ==> reached_gain(
            ramp,
            before.len() / (channels as nat),
            from,
            to,
            audible_frames,
        ) == gain,
{
    let frames = before.len() / (channels as nat);
    let index = frame * channels + channel;
    lemma_fundamental_div_mod_converse(
        index as int,
        channels as int,
        frame as int,
        channel as int,
    );
    assert(frame * channels + channel < before.len() && frames <= before.len())
        by (nonlinear_arith)
        requires
            channels > 0,
            channel < channels,
            frame + 1 <= frames,
            frames == before.len() / (channels as nat),
    ;
    assert(!same_number(from, to));
}

/// Samples behind the last whole frame have the gain that the change has reached.
pub proof fn lemma_incomplete_frame_has_the_reached_gain<
    R: Fn(u32, u32, usize, usize) -> u32,
    M: Fn(u32, u32) -> u32,
>(
    ramp: R,
    multiply: M,
    before: Seq<u32>,
    index: int,
    channels: usize,
    from: FloatBits,
    to: FloatBits,
    audible_frames: usize,
)
    requires
        channels > 0,
        audible_frames > 0,
        before.len() >= channels,
        0 <= index < before.len(),
        index / channels as int >= before.len() / (channels as nat),
        !same_number(normalized(from), normalized(to)),
    ensures
        ramped_sample(ramp, multiply, before, index, channels, from, to, audible_frames) == scaled(
            multiply,
            before[index],
            reached_gain(
                ramp,
                before.len() / (channels as nat),
                from,
                to,
                audible_frames,
            ),
        ),
        audible_frames >= before.len() / (channels as nat) ==> reached_gain(
            ramp,
            before.len() / (channels as nat),
            from,
            to,
            audible_frames,
        ) == ramp_gain(
            ramp,
            normalized(from),
            normalized(to),
            (before.len() / (channels as nat)) as usize,
            (before.len() / (channels as nat)) as usize,
        ),
{
    assert(before.len() / (channels as nat) > 0) by (nonlinear_arith)
        requires
            before.len() >= channels > 0,
    ;
}

/// Samples without channels are taken for mono, and any others for whole frames of
/// their channels.
pub proof fn lemma_frames_are_of_all_channels(samples: nat, channels: usize)
    ensures
        channels == 0 ==> ramp_frames(samples, channels) == samples,
        channels > 0 ==> ramp_frames(samples, channels) == samples / (channels as nat),
{
}

} // verus!
