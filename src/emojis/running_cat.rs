//! A cat that sleeps below a speed threshold and otherwise runs, stepping one
//! frame at a time whenever more than a frame period has passed.
use crate::emojis::animated_emoji::{AnimatorError, SPEED_SCALE};
use vstd::prelude::*;

verus! {

/// A source of one glyph.
pub trait EmojiRenderer {
    fn get_emoji() -> char;
}

/// Nanoseconds per millisecond.
pub const NANOS_PER_MILLI: u64 = 1_000_000;

/// The frame period in whole milliseconds at `frame_count` frames per cycle,
/// `max_cycles` millihertz at full speed and `speed` parts per million:
/// `floor(1000 / fps)`, or `u64::MAX` when the rate is zero.
pub open spec fn period_millis(frame_count: int, max_cycles: int, speed: int) -> int {
    let rate = frame_count * speed * max_cycles;
    if rate == 0 {
        u64::MAX as int
    } else {
        let p = 1000 * 1000 * (SPEED_SCALE as int) / rate;
        if p > u64::MAX {
            u64::MAX as int
        } else {
            p
        }
    }
}

/// Collects the parameters of a `RunningCat`.
pub struct RunningCatBuilder {
    max_cycles_per_second: u32,
    speed_threshold: u32,
    frames: Vec<char>,
    sleep_frame: char,
}

impl RunningCatBuilder {
    pub closed spec fn spec_max_cycles(&self) -> u32 {
        self.max_cycles_per_second
    }

    pub closed spec fn spec_threshold(&self) -> u32 {
        self.speed_threshold
    }

    pub closed spec fn spec_frames(&self) -> Seq<char> {
        self.frames@
    }

    pub closed spec fn spec_sleep_frame(&self) -> char {
        self.sleep_frame
    }

    /// Nothing set: zero rates, no frames, a NUL sleeping frame.
    pub fn new() -> (r: Self)
        ensures
            r.spec_max_cycles() == 0,
            r.spec_threshold() == 0,
            r.spec_frames() == Seq::<char>::empty(),
            r.spec_sleep_frame() == '\0',
    {
        RunningCatBuilder {
            max_cycles_per_second: 0,
            speed_threshold: 0,
            frames: Vec::new(),
            sleep_frame: '\0',
        }
    }

    /// Builds the cat; it needs at least one frame and a positive rate.
    pub fn build(self) -> (r: Result<RunningCat, AnimatorError>)
        ensures
            self.spec_frames().len() == 0 ==> r == Err::<RunningCat, AnimatorError>(
                AnimatorError::EmptyFrames,
            ),
            self.spec_frames().len() > 0 && self.spec_max_cycles() == 0 ==> r == Err::<
                RunningCat,
                AnimatorError,
            >(AnimatorError::NonPositiveMaxFrequency),
            r is Ok <==> self.spec_frames().len() > 0 && self.spec_max_cycles() > 0,
            r matches Ok(c) ==> {
                &&& c.wf()
                &&& c.spec_frame() == 0
                &&& c.spec_previous_update() == 0
                &&& c.spec_frames() == self.spec_frames()
                &&& c.spec_max_cycles() == self.spec_max_cycles()
                &&& c.spec_threshold() == self.spec_threshold()
                &&& c.spec_sleep_frame() == self.spec_sleep_frame()
            },
    {
        if self.frames.len() == 0 {
            return Err(AnimatorError::EmptyFrames);
        }
        if self.max_cycles_per_second == 0 {
            return Err(AnimatorError::NonPositiveMaxFrequency);
        }
        Ok(
            RunningCat {
                max_cycles_per_second: self.max_cycles_per_second,
                speed_threshold: self.speed_threshold,
                frames: self.frames,
                sleep_frame: self.sleep_frame,
                frame: 0,
                previous_frame_update: 0,
            },
        )
    }

    /// Sets the cycles per second at full speed, in millihertz.
    pub fn max_cycles_per_second(self, max_cycles_per_second: u32) -> (r: Self)
        requires
            max_cycles_per_second > 0,
        ensures
            r.spec_max_cycles() == max_cycles_per_second,
            r.spec_threshold() == self.spec_threshold(),
            r.spec_frames() == self.spec_frames(),
            r.spec_sleep_frame() == self.spec_sleep_frame(),
    {
        RunningCatBuilder { max_cycles_per_second, ..self }
    }

    /// Sets the speed below which the cat sleeps, in parts per million.
    pub fn speed_threshold(self, speed_threshold: u32) -> (r: Self)
        requires
            speed_threshold <= SPEED_SCALE,
        ensures
            r.spec_threshold() == speed_threshold,
            r.spec_max_cycles() == self.spec_max_cycles(),
            r.spec_frames() == self.spec_frames(),
            r.spec_sleep_frame() == self.spec_sleep_frame(),
    {
        RunningCatBuilder { speed_threshold, ..self }
    }

    /// Sets the running frames, in order.
    pub fn frames(self, frames: Vec<char>) -> (r: Self)
        requires
            frames@.len() > 0,
        ensures
            r.spec_frames() == frames@,
            r.spec_max_cycles() == self.spec_max_cycles(),
            r.spec_threshold() == self.spec_threshold(),
            r.spec_sleep_frame() == self.spec_sleep_frame(),
    {
        RunningCatBuilder { frames, ..self }
    }

    /// Sets the glyph shown while sleeping.
    pub fn sleep_frame(self, sleep_frame: char) -> (r: Self)
        ensures
            r.spec_sleep_frame() == sleep_frame,
            r.spec_max_cycles() == self.spec_max_cycles(),
            r.spec_threshold() == self.spec_threshold(),
            r.spec_frames() == self.spec_frames(),
    {
        RunningCatBuilder { sleep_frame, ..self }
    }
}

/// A running cat with a sleeping frame (single-step policy).
pub struct RunningCat {
    max_cycles_per_second: u32,
    speed_threshold: u32,
    frame: usize,
    previous_frame_update: u64,
    frames: Vec<char>,
    sleep_frame: char,
}

impl RunningCat {
    pub closed spec fn spec_max_cycles(&self) -> u32 {
        self.max_cycles_per_second
    }

    pub closed spec fn spec_threshold(&self) -> u32 {
        self.speed_threshold
    }

    pub closed spec fn spec_frames(&self) -> Seq<char> {
        self.frames@
    }

    pub closed spec fn spec_sleep_frame(&self) -> char {
        self.sleep_frame
    }

    pub closed spec fn spec_frame(&self) -> int {
        self.frame as int
    }

    pub closed spec fn spec_previous_update(&self) -> u64 {
        self.previous_frame_update
    }

    pub open spec fn wf(&self) -> bool {
        &&& self.spec_frames().len() > 0
        &&& 0 <= self.spec_frame() < self.spec_frames().len()
        &&& self.spec_max_cycles() > 0
    }

    /// A builder with nothing set.
    pub fn builder() -> (r: RunningCatBuilder)
        ensures
            r.spec_max_cycles() == 0,
            r.spec_threshold() == 0,
            r.spec_frames() == Seq::<char>::empty(),
            r.spec_sleep_frame() == '\0',
    {
        RunningCatBuilder::new()
    }

    /// The glyph at `now` (nanoseconds since the Unix epoch) for a speed in
    /// parts per million: the sleeping frame below the threshold; otherwise
    /// one frame further when more than a frame period has passed since the
    /// last step, else the current frame.
    pub fn get_frame(&mut self, speed: u32, now: u64) -> (r: char)
        requires
            old(self).wf(),
            speed <= SPEED_SCALE,
        ensures
            final(self).wf(),
            final(self).spec_frames() == old(self).spec_frames(),
            final(self).spec_max_cycles() == old(self).spec_max_cycles(),
            final(self).spec_threshold() == old(self).spec_threshold(),
            final(self).spec_sleep_frame() == old(self).spec_sleep_frame(),
            speed < old(self).spec_threshold() ==> r == old(self).spec_sleep_frame() && *final(self)
                == *old(self),
            speed >= old(self).spec_threshold() ==> ({
                let step = now >= old(self).spec_previous_update() && (now - old(self).spec_previous_update()) > period_millis(
                    old(self).spec_frames().len() as int,
                    old(self).spec_max_cycles() as int,
                    speed as int,
                ) * NANOS_PER_MILLI;
                &&& step ==> final(self).spec_frame() == (old(self).spec_frame() + 1) % (old(self).spec_frames().len() as int) && final(self).spec_previous_update() == now
                &&& !step ==> final(self).spec_frame() == old(self).spec_frame() && final(self).spec_previous_update() == old(self).spec_previous_update()
                &&& r == final(self).spec_frames()[final(self).spec_frame()]
            }),
    {
        if speed < self.speed_threshold {
            return self.sleep_frame;
        }
        let n = self.frames.len();
        assert((n as int) * (speed as int) <= 0xffff_ffff_ffff_ffff * 1_000_000) by (nonlinear_arith)
            requires
                n <= 0xffff_ffff_ffff_ffffu64,
                speed <= 1_000_000u32,
        ;
        let per_cycle: u128 = (n as u128) * (speed as u128);
        assert((per_cycle as int) * (self.max_cycles_per_second as int) <= 0xffff_ffff_ffff_ffff
            * 1_000_000 * 0xffff_ffff) by (nonlinear_arith)
            requires
                per_cycle <= 0xffff_ffff_ffff_ffff * 1_000_000,
                self.max_cycles_per_second <= 0xffff_ffffu32,
        ;
        let rate: u128 = per_cycle * (self.max_cycles_per_second as u128);
        assert(rate as int == (n as int) * (speed as int) * (self.max_cycles_per_second as int));
        let period: u64 = if rate == 0 {
            u64::MAX
        } else {
            let p: u128 = 1_000_000_000_000u128 / rate;
            if p > u64::MAX as u128 {
                u64::MAX
            } else {
                p as u64
            }
        };
        assert(period as int == period_millis(n as int, self.max_cycles_per_second as int, speed as int));
        proof {
            let ni = n as int;
            let f = self.frame as int;
            if f + 1 == ni {
                vstd::arithmetic::div_mod::lemma_mod_self_0(ni);
            } else {
                vstd::arithmetic::div_mod::lemma_small_mod((f + 1) as nat, ni as nat);
            }
        }
        if now >= self.previous_frame_update {
            let since = now - self.previous_frame_update;
            if (since as u128) > (period as u128) * (NANOS_PER_MILLI as u128) {
                self.previous_frame_update = now;
                self.frame = if self.frame + 1 == n {
                    0
                } else {
                    self.frame + 1
                };
            }
        }
        self.frames[self.frame]
    }
}

} // verus!
