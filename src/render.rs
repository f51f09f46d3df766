//! Render loop: on each fixed-rate tick, compose the status line from the
//! current texts and hand it to the sink; a sink failure stops the loop.
use crate::compose::{compose, status_line, texts_view};
use crate::xsetroot::Error;
use vstd::prelude::*;

verus! {

/// Nanoseconds between two render ticks: 71 ticks per second.
pub const FRAME_PERIOD_NS: u64 = 14_084_507;

/// Width of the status line, in chars.
pub const STATUS_WIDTH: usize = 93;

/// What stands between two metric texts.
pub const SEPARATOR: &'static str = " | ";

/// The state of the render loop.
#[derive(Debug, Clone, Copy, PartialEq, Eq, Structural)]
pub enum RenderState {
    Running,
    Stopped,
}

/// The render loop's decisions; the caller waits for ticks, reads the texts
/// and calls the sink.
pub struct RenderLoop {
    state: RenderState,
    width: usize,
}

impl RenderLoop {
    pub closed spec fn spec_state(&self) -> RenderState {
        self.state
    }

    pub closed spec fn spec_width(&self) -> nat {
        self.width as nat
    }

    /// A running loop that composes lines of `width` chars.
    pub fn new(width: usize) -> (r: RenderLoop)
        ensures
            r.spec_state() == RenderState::Running,
            r.spec_width() == width,
    {
        RenderLoop { state: RenderState::Running, width }
    }

    /// One tick: while running, the line to publish, composed from `texts`
    /// in order with `separator`; once stopped, nothing.
    pub fn tick(&self, texts: &Vec<String>, separator: &str) -> (r: Option<String>)
        ensures
            self.spec_state() == RenderState::Running <==> r is Some,
            r matches Some(line) ==> line@ == status_line(
                texts_view(texts@),
                separator@,
                self.spec_width(),
            ),
    {
        match self.state {
            RenderState::Running => Some(compose(texts, separator, self.width)),
            RenderState::Stopped => None,
        }
    }

    /// Takes the sink's answer: success keeps the loop running, a failure
    /// stops it for good and is returned as fatal.
    pub fn on_sink(&mut self, result: Result<(), Error>) -> (r: Result<(), Error>)
        ensures
            r == result,
            result is Err ==> final(self).spec_state() == RenderState::Stopped,
            result is Ok ==> final(self).spec_state() == old(self).spec_state(),
            final(self).spec_width() == old(self).spec_width(),
    {
        if result.is_err() {
            self.state = RenderState::Stopped;
        }
        result
    }

    /// The current state.
    pub fn state(&self) -> (r: RenderState)
        ensures
            r == self.spec_state(),
    {
        self.state
    }
}

} // verus!
