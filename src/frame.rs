//! The frame loop's two states and the decision taken between frames.
use vstd::prelude::*;

verus! {

/// Width of the output raster in pixels.
pub const WIDTH: u32 = 200;

/// Height of the output raster in pixels.
pub const HEIGHT: u32 = 200;

#[derive(Clone, Copy, Debug, PartialEq, Eq, Structural)]
pub enum LoopState {
    Running,
    Stopped,
}

/// What the host does next.
#[derive(Clone, Copy, Debug, PartialEq, Eq, Structural)]
pub enum FrameAction {
    /// Advance the time, draw a frame and present it.
    Render,
    /// Leave the loop.
    Exit,
}

/// The state after observing (or not) a quit request.
pub open spec fn next_state(s: LoopState, quit: bool) -> LoopState {
    if quit {
        LoopState::Stopped
    } else {
        s
    }
}

impl LoopState {
    /// Decides, between frames, whether to draw another one. A stopped loop
    /// stays stopped; a running one stops as soon as a quit was requested.
    pub fn step(self, quit: bool) -> (r: (LoopState, FrameAction))
        ensures
            r.0 == next_state(self, quit),
            r.1 == (if r.0 == LoopState::Running {
                FrameAction::Render
            } else {
                FrameAction::Exit
            }),
    {
        if quit {
            (LoopState::Stopped, FrameAction::Exit)
        } else {
            match self {
                LoopState::Running => (LoopState::Running, FrameAction::Render),
                LoopState::Stopped => (LoopState::Stopped, FrameAction::Exit),
            }
        }
    }
}

} // verus!
