//! Frequency-mapped animator: maps a speed in `[0, 1]` onto the frames of an
//! animated glyph, advancing by as many frames as the elapsed time covers.
use vstd::arithmetic::div_mod::{lemma_div_multiples_vanish_fancy, lemma_mod_multiples_vanish};
use crate::emojis::animated_emoji_builder::{AnimatedEmojiBuilder, FramesNotSet, MaxFrequencyNotSet};
use vstd::prelude::*;

verus! {

/// Speed is given in parts per million: `SPEED_SCALE` stands for 1.0.
pub const SPEED_SCALE: u32 = 1_000_000;

/// Nanoseconds per second.
pub const NANOS_PER_SEC: u64 = 1_000_000_000;

/// The denominator of the frame count: speed scale, millihertz and nanoseconds.
pub const SKIP_DENOMINATOR: u128 = 1_000_000_000_000_000_000;

/// Why an animator cannot be built.
#[derive(Debug, Clone, Copy, PartialEq, Eq, Structural)]
pub enum AnimatorError {
    EmptyFrames,
    NonPositiveMaxFrequency,
    MinAboveMax,
}

/// Effective frequency, in millihertz times `SPEED_SCALE`:
/// `min + speed * (max - min)`.
pub open spec fn scaled_frequency(min: int, max: int, speed: int) -> int {
    min * SPEED_SCALE + speed * (max - min)
}

/// Time since `previous`, zero when the clock reads earlier than it.
pub open spec fn elapsed(previous: u64, now: u64) -> int {
    if now >= previous {
        now - previous
    } else {
        0
    }
}

/// Whole frames covered by `elapsed_ns` at `frame_count` frames per cycle and
/// the given effective frequency: `floor(elapsed * fps)`.
pub open spec fn frames_to_skip(elapsed_ns: int, frame_count: int, scaled_freq: int) -> int {
    (elapsed_ns * frame_count * scaled_freq) / (SKIP_DENOMINATOR as int)
}

/// Validated parameters of an animation.
pub open spec fn valid_parameters(max: int, min: int, frame_count: int) -> bool {
    &&& frame_count > 0
    &&& max > 0
    &&& min <= max
}

/// An animated glyph whose frame rate follows a speed in `[0, 1]`.
///
/// The frame rate is `frames.len() * (min + speed * (max - min))` frames per
/// second. The first query after construction or `reset` shows the current
/// frame and starts the clock; each later query advances by every whole frame
/// that the time since the last advance covers (catch-up policy).
#[derive(Debug)]
pub struct AnimatedEmoji {
    max_frequency: u32,
    min_frequency: u32,
    frame: usize,
    previous_frame_update: Option<u64>,
    frames: Vec<char>,
}

impl AnimatedEmoji {
    /// The internal invariant: validated parameters and a frame in range.
    pub open spec fn wf(&self) -> bool {
        &&& valid_parameters(
            self.spec_max_frequency(),
            self.spec_min_frequency(),
            self.spec_frames().len() as int,
        )
        &&& 0 <= self.spec_frame() < self.spec_frames().len()
        &&& 0 <= self.spec_min_frequency()
    }

    pub closed spec fn spec_frame(&self) -> int {
        self.frame as int
    }

    pub closed spec fn spec_frames(&self) -> Seq<char> {
        self.frames@
    }

    pub closed spec fn spec_max_frequency(&self) -> int {
        self.max_frequency as int
    }

    pub closed spec fn spec_min_frequency(&self) -> int {
        self.min_frequency as int
    }

    pub closed spec fn spec_previous_update(&self) -> Option<u64> {
        self.previous_frame_update
    }

    /// The number of frames that a query at `now` with `speed` moves by.
    pub open spec fn spec_skip(&self, speed: int, now: u64) -> int {
        match self.spec_previous_update() {
            None => 0,
            Some(previous) => frames_to_skip(
                elapsed(previous, now),
                self.spec_frames().len() as int,
                scaled_frequency(self.spec_min_frequency(), self.spec_max_frequency(), speed),
            ),
        }
    }

    /// The frame index after a query at `now` with `speed`.
    pub open spec fn spec_next_frame(&self, speed: int, now: u64) -> int {
        let skip = self.spec_skip(speed, now);
        if skip > 0 {
            (self.spec_frame() + skip) % (self.spec_frames().len() as int)
        } else {
            self.spec_frame()
        }
    }

    /// The time of the last advance after a query at `now` with `speed`.
    pub open spec fn spec_next_update(&self, speed: int, now: u64) -> Option<u64> {
        if self.spec_previous_update() is None || self.spec_skip(speed, now) > 0 {
            Some(now)
        } else {
            self.spec_previous_update()
        }
    }

    /// A validated constructor: frequencies in millihertz, at least one frame,
    /// `max_frequency > 0` and `min_frequency <= max_frequency`.
    pub fn new(max_frequency: u32, min_frequency: u32, frames: Vec<char>) -> (r: Result<
        AnimatedEmoji,
        AnimatorError,
    >)
        ensures
            frames@.len() == 0 ==> r == Err::<AnimatedEmoji, AnimatorError>(
                AnimatorError::EmptyFrames,
            ),
            frames@.len() > 0 && max_frequency == 0 ==> r == Err::<AnimatedEmoji, AnimatorError>(
                AnimatorError::NonPositiveMaxFrequency,
            ),
            frames@.len() > 0 && max_frequency > 0 && min_frequency > max_frequency ==> r
                == Err::<AnimatedEmoji, AnimatorError>(AnimatorError::MinAboveMax),
            r is Ok <==> valid_parameters(max_frequency as int, min_frequency as int, frames@.len() as int),
            r matches Ok(e) ==> {
                &&& e.wf()
                &&& e.spec_frames() == frames@
                &&& e.spec_max_frequency() == max_frequency
                &&& e.spec_min_frequency() == min_frequency
                &&& e.spec_frame() == 0
                &&& e.spec_previous_update() is None
            },
    {
        if frames.len() == 0 {
            Err(AnimatorError::EmptyFrames)
        } else if max_frequency == 0 {
            Err(AnimatorError::NonPositiveMaxFrequency)
        } else if min_frequency > max_frequency {
            Err(AnimatorError::MinAboveMax)
        } else {
            Ok(AnimatedEmoji {
                max_frequency,
                min_frequency,
                frame: 0,
                previous_frame_update: None,
                frames,
            })
        }
    }

    /// A builder with nothing set.
    pub fn builder() -> (r: AnimatedEmojiBuilder<MaxFrequencyNotSet, FramesNotSet>)
        ensures
            r.spec_min_frequency() == 0,
    {
        AnimatedEmojiBuilder::new()
    }

    /// The current frame index.
    pub fn frame(&self) -> (r: usize)
        ensures
            r == self.spec_frame(),
    {
        self.frame
    }

    /// The number of frames.
    pub fn frame_count(&self) -> (r: usize)
        ensures
            r == self.spec_frames().len(),
    {
        self.frames.len()
    }

    /// Moves by every whole frame covered since the last advance at the rate
    /// that `speed` (parts per million of full speed) gives, and returns the
    /// glyph now shown. `now` is a monotonic clock reading in nanoseconds.
    pub fn next_frame(&mut self, speed: u32, now: u64) -> (r: char)
        requires
            old(self).wf(),
            speed <= SPEED_SCALE,
        ensures
            final(self).wf(),
            final(self).spec_frame() == old(self).spec_next_frame(speed as int, now),
            final(self).spec_previous_update() == old(self).spec_next_update(speed as int, now),
            final(self).spec_frames() == old(self).spec_frames(),
            final(self).spec_max_frequency() == old(self).spec_max_frequency(),
            final(self).spec_min_frequency() == old(self).spec_min_frequency(),
            r == final(self).spec_frames()[final(self).spec_frame()],
    {
        let n = self.frames.len();
        match self.previous_frame_update {
            None => {
                self.previous_frame_update = Some(now);
            },
            Some(previous) => {
                let elapsed_ns: u64 = if now >= previous {
                    now - previous
                } else {
                    0
                };
                let min = self.min_frequency as u128;
                let max = self.max_frequency as u128;
                let s = speed as u128;
                assert(s * (max - min) <= (SPEED_SCALE as u128) * (max - min)) by (nonlinear_arith)
                    requires
                        s <= SPEED_SCALE as u128,
                        min <= max,
                ;
                assert(max <= 0xffff_ffff && min * (SPEED_SCALE as u128) <= max * (SPEED_SCALE as u128)) by (nonlinear_arith)
                    requires
                        min <= max,
                        max == self.max_frequency as u128,
                ;
                let freq: u128 = min * (SPEED_SCALE as u128) + s * (max - min);
                assert(freq <= 0xffff_ffff * 1_000_000u128) by (nonlinear_arith)
                    requires
                        freq == min * 1_000_000u128 + s * (max - min),
                        s <= 1_000_000u128,
                        min <= max,
                        max <= 0xffff_ffff,
                ;
                assert((elapsed_ns as u128) * freq <= 0xffff_ffff_ffff_ffffu128 * (0xffff_ffff
                    * 1_000_000u128)) by (nonlinear_arith)
                    requires
                        freq <= 0xffff_ffff * 1_000_000u128,
                        elapsed_ns <= 0xffff_ffff_ffff_ffffu64,
                ;
                let q: u128 = (elapsed_ns as u128) * freq;
                let whole: u128 = q / SKIP_DENOMINATOR;
                let rest: u128 = q % SKIP_DENOMINATOR;
                let nn = n as u128;
                assert(rest * nn < SKIP_DENOMINATOR * 0x1_0000_0000_0000_0000u128) by (nonlinear_arith)
                    requires
                        rest < SKIP_DENOMINATOR,
                        nn <= 0xffff_ffff_ffff_ffffu128,
                ;
                let part: u128 = rest * nn / SKIP_DENOMINATOR;
                proof {
                    let d = SKIP_DENOMINATOR as int;
                    let c = part as int;
                    let e = (rest * nn) as int % d;
                    assert(q as int == d * (whole as int) + rest as int);
                    assert((rest * nn) as int == d * c + e);
                    assert((q as int) * (nn as int) == d * ((whole as int) * (nn as int) + c) + e)
                        by (nonlinear_arith)
                        requires
                            q as int == d * (whole as int) + rest as int,
                            (rest as int) * (nn as int) == d * c + e,
                    ;
                    lemma_div_multiples_vanish_fancy((whole as int) * (nn as int) + c, e, d);
                    assert(elapsed_ns as int == elapsed(previous, now));
                    assert(freq as int == scaled_frequency(min as int, max as int, speed as int));
                    assert((elapsed_ns as int) * (nn as int) * (freq as int) == (q as int) * (
                    nn as int)) by (nonlinear_arith)
                        requires
                            q as int == (elapsed_ns as int) * (freq as int),
                    ;
                    assert(c < nn) by (nonlinear_arith)
                        requires
                            (rest as int) < d,
                            c == ((rest as int) * (nn as int)) / d,
                            d > 0,
                            nn > 0,
                    ;
                }
                let skip_any = whole > 0 || part > 0;
                proof {
                    let skip = old(self).spec_skip(speed as int, now);
                    let nn_i = nn as int;
                    assert(skip == (whole as int) * nn_i + (part as int));
                    assert(skip > 0 <==> skip_any) by (nonlinear_arith)
                        requires
                            skip == (whole as int) * nn_i + (part as int),
                            nn_i > 0,
                            whole >= 0,
                            part >= 0,
                            skip_any == (whole > 0 || part > 0),
                    ;
                    assert((self.frame + skip) % nn_i == (self.frame + (part as int)) % nn_i) by {
                        assert(self.frame + skip == nn_i * (whole as int) + (self.frame + (
                        part as int))) by (nonlinear_arith)
                            requires
                                skip == (whole as int) * nn_i + (part as int),
                        ;
                        lemma_mod_multiples_vanish(whole as int, self.frame + (part as int), nn_i);
                    }
                }
                if skip_any {
                    let p = part as usize;
                    let f = self.frame;
                    let next = if p < n - f {
                        f + p
                    } else {
                        p - (n - f)
                    };
                    proof {
                        let nn_i = n as int;
                        if (p as int) < nn_i - f {
                            vstd::arithmetic::div_mod::lemma_small_mod((f + p) as nat, nn_i as nat);
                        } else {
                            assert(f + p == nn_i * 1 + (p - (nn_i - f)));
                            lemma_mod_multiples_vanish(1, p - (nn_i - f), nn_i);
                            vstd::arithmetic::div_mod::lemma_small_mod((p - (nn_i - f)) as nat, nn_i as nat);
                        }
                    }
                    self.frame = next;
                    self.previous_frame_update = Some(now);
                }
            },
        }
        self.frames[self.frame]
    }

    /// Returns to the first frame and forgets the last advance, so that the
    /// next query shows frame 0 and starts the clock anew.
    pub fn reset(&mut self)
        requires
            old(self).wf(),
        ensures
            final(self).wf(),
            final(self).spec_frame() == 0,
            final(self).spec_previous_update() is None,
            final(self).spec_frames() == old(self).spec_frames(),
            final(self).spec_max_frequency() == old(self).spec_max_frequency(),
            final(self).spec_min_frequency() == old(self).spec_min_frequency(),
    {
        self.frame = 0;
        self.previous_frame_update = None;
    }
}

/// Whatever the speed and the time, the next frame index stays within
/// `[0, frame count)`.
pub proof fn lemma_next_frame_in_range(e: AnimatedEmoji, speed: int, now: u64)
    requires
        e.wf(),
        0 <= speed <= SPEED_SCALE,
    ensures
        0 <= e.spec_next_frame(speed, now) < e.spec_frames().len(),
{
    let n = e.spec_frames().len() as int;
    let skip = e.spec_skip(speed, now);
    if skip > 0 {
        vstd::arithmetic::div_mod::lemma_mod_bound(e.spec_frame() + skip, n);
    }
}

/// Right after `reset` (frame 0, no recorded advance), the next query shows
/// frame 0 whatever the speed and the time, and starts the clock.
pub proof fn lemma_reset_then_advance(e: AnimatedEmoji, speed: int, now: u64)
    requires
        e.wf(),
        e.spec_frame() == 0,
        e.spec_previous_update() is None,
    ensures
        e.spec_next_frame(speed, now) == 0,
        e.spec_next_update(speed, now) == Some(now),
{
}

/// When the time since the last advance covers exactly one full cycle (every
/// frame once), the query moves by `frame count` frames and shows the same
/// frame again.
pub proof fn lemma_full_cycle_keeps_frame(e: AnimatedEmoji, speed: int, now: u64)
    requires
        e.wf(),
        e.spec_previous_update() is Some,
        elapsed(e.spec_previous_update()->0, now) * scaled_frequency(
            e.spec_min_frequency(),
            e.spec_max_frequency(),
            speed,
        ) == SKIP_DENOMINATOR as int,
    ensures
        e.spec_skip(speed, now) == e.spec_frames().len(),
        e.spec_next_frame(speed, now) == e.spec_frame(),
{
    let n = e.spec_frames().len() as int;
    let d = SKIP_DENOMINATOR as int;
    let el = elapsed(e.spec_previous_update()->0, now);
    let f = scaled_frequency(e.spec_min_frequency(), e.spec_max_frequency(), speed);
    assert(el * n * f == d * n) by (nonlinear_arith)
        requires
            el * f == d,
    ;
    vstd::arithmetic::div_mod::lemma_div_multiples_vanish_fancy(n, 0, d);
    assert(e.spec_frame() + n == n * 1 + e.spec_frame());
    lemma_mod_multiples_vanish(1, e.spec_frame(), n);
    vstd::arithmetic::div_mod::lemma_small_mod(e.spec_frame() as nat, n as nat);
}

} // verus!
