//! A builder for `AnimatedEmoji` that tracks in its type whether the maximum
//! frequency and the frames have been given; `build` validates them.
use crate::emojis::animated_emoji::{valid_parameters, AnimatedEmoji, AnimatorError};
use vstd::prelude::*;

verus! {

/// The maximum frequency has been given (in millihertz).
pub struct MaxFrequencySet(u32);

/// The maximum frequency has not been given yet.
pub struct MaxFrequencyNotSet;

/// The frames have been given.
pub struct FramesSet(Vec<char>);

/// The frames have not been given yet.
pub struct FramesNotSet;

impl MaxFrequencySet {
    pub closed spec fn spec_value(&self) -> int {
        self.0 as int
    }
}

impl FramesSet {
    pub closed spec fn spec_frames(&self) -> Seq<char> {
        self.0@
    }
}

/// Collects the parameters of an animation; the minimum frequency is zero
/// unless set.
pub struct AnimatedEmojiBuilder<MaxFrequencyState = MaxFrequencyNotSet, FramesState = FramesNotSet> {
    max_frequency: MaxFrequencyState,
    min_frequency: u32,
    frames: FramesState,
}

impl<FA, FB> AnimatedEmojiBuilder<FA, FB> {
    pub closed spec fn spec_min_frequency(&self) -> int {
        self.min_frequency as int
    }

    pub closed spec fn spec_max_state(&self) -> FA {
        self.max_frequency
    }

    pub closed spec fn spec_frames_state(&self) -> FB {
        self.frames
    }

    /// Sets the maximum frequency, in millihertz.
    pub fn max_frequency(self, max_frequency: u32) -> (r: AnimatedEmojiBuilder<MaxFrequencySet, FB>)
        ensures
            r.spec_max_state().spec_value() == max_frequency,
            r.spec_min_frequency() == self.spec_min_frequency(),
            r.spec_frames_state() == self.spec_frames_state(),
    {
        AnimatedEmojiBuilder {
            max_frequency: MaxFrequencySet(max_frequency),
            min_frequency: self.min_frequency,
            frames: self.frames,
        }
    }

    /// Sets the frames of the animation, in order.
    pub fn frames(self, frames: Vec<char>) -> (r: AnimatedEmojiBuilder<FA, FramesSet>)
        ensures
            r.spec_frames_state().spec_frames() == frames@,
            r.spec_min_frequency() == self.spec_min_frequency(),
            r.spec_max_state() == self.spec_max_state(),
    {
        AnimatedEmojiBuilder {
            max_frequency: self.max_frequency,
            min_frequency: self.min_frequency,
            frames: FramesSet(frames),
        }
    }

    /// Sets the minimum frequency, in millihertz.
    pub fn min_frequency(self, min_frequency: u32) -> (r: Self)
        ensures
            r.spec_min_frequency() == min_frequency,
            r.spec_max_state() == self.spec_max_state(),
            r.spec_frames_state() == self.spec_frames_state(),
    {
        AnimatedEmojiBuilder {
            max_frequency: self.max_frequency,
            min_frequency,
            frames: self.frames,
        }
    }
}

impl AnimatedEmojiBuilder<MaxFrequencyNotSet, FramesNotSet> {
    /// A builder with nothing set and a minimum frequency of zero.
    pub fn new() -> (r: Self)
        ensures
            r.spec_min_frequency() == 0,
    {
        AnimatedEmojiBuilder { max_frequency: MaxFrequencyNotSet, min_frequency: 0, frames: FramesNotSet }
    }
}

impl Default for AnimatedEmojiBuilder<MaxFrequencyNotSet, FramesNotSet> {
    fn default() -> (r: Self)
        ensures
            r.spec_min_frequency() == 0,
    {
        AnimatedEmojiBuilder::new()
    }
}

impl AnimatedEmojiBuilder<MaxFrequencySet, FramesSet> {
    /// Builds the animator, or says which parameter is invalid.
    pub fn build(self) -> (r: Result<AnimatedEmoji, AnimatorError>)
        ensures
            r is Ok <==> valid_parameters(
                self.spec_max_state().spec_value(),
                self.spec_min_frequency(),
                self.spec_frames_state().spec_frames().len() as int,
            ),
            self.spec_frames_state().spec_frames().len() == 0 ==> r == Err::<
                AnimatedEmoji,
                AnimatorError,
            >(AnimatorError::EmptyFrames),
            self.spec_frames_state().spec_frames().len() > 0 && self.spec_max_state().spec_value()
                == 0 ==> r == Err::<AnimatedEmoji, AnimatorError>(
                AnimatorError::NonPositiveMaxFrequency,
            ),
            self.spec_frames_state().spec_frames().len() > 0 && self.spec_max_state().spec_value()
                > 0 && self.spec_min_frequency() > self.spec_max_state().spec_value() ==> r == Err::<
                AnimatedEmoji,
                AnimatorError,
            >(AnimatorError::MinAboveMax),
            r matches Ok(e) ==> {
                &&& e.wf()
                &&& e.spec_frames() == self.spec_frames_state().spec_frames()
                &&& e.spec_max_frequency() == self.spec_max_state().spec_value()
                &&& e.spec_min_frequency() == self.spec_min_frequency()
                &&& e.spec_frame() == 0
                &&& e.spec_previous_update() is None
            },
    {
        let AnimatedEmojiBuilder { max_frequency, min_frequency, frames } = self;
        AnimatedEmoji::new(max_frequency.0, min_frequency, frames.0)
    }
}

} // verus!
