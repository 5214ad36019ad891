//! The cycle that every backend follows to draw one frame.
//!
//! Drawing a frame is a fixed sequence of native calls: the backend's
//! begin-draw hook, binding the target and opening the draw, the caller's
//! commands, closing the draw, unbinding the target, and the backend's
//! end-draw hook (which presents or flushes). Closing the draw and the end
//! hook can fail; a failure ends the cycle at once. `DrawCycle` makes those
//! decisions; the caller performs each step it is handed and reports back.
use vstd::prelude::*;
use crate::error::GraphicsError;

pub mod d3d12;

verus! {

/// One piece of native work in drawing a frame.
#[derive(Clone, Copy, PartialEq, Eq, Debug)]
pub enum DrawStep {
    /// The backend's begin-draw hook.
    BeginBackend,
    /// Binding the target's bitmap to the device context and opening the draw.
    BeginDraw,
    /// Running the caller's draw commands.
    RunCommands,
    /// Closing the draw on the device context.
    EndDraw,
    /// Unbinding the target from the device context.
    Unbind,
    /// The backend's end-draw hook: present or flush.
    EndBackend,
}

/// How far a frame has come.
#[derive(Clone, Copy, PartialEq, Eq, Debug)]
pub enum DrawPhase {
    /// No step has been handed out yet.
    Ready,
    /// The given step was handed out last.
    Done(DrawStep),
    /// The frame is finished or has failed.
    Over,
}

/// What the caller is to do next.
#[derive(Debug)]
pub enum DrawAction {
    /// Perform this step and report how it went.
    Perform(DrawStep),
    /// Every step succeeded: hand back what the commands returned.
    Finish,
    /// The last step failed with this error: hand it back.
    Abort(GraphicsError),
}

impl DrawStep {
    /// The step that follows this one, if any.
    pub open spec fn successor(self) -> Option<DrawStep> {
        match self {
            DrawStep::BeginBackend => Some(DrawStep::BeginDraw),
            DrawStep::BeginDraw => Some(DrawStep::RunCommands),
            DrawStep::RunCommands => Some(DrawStep::EndDraw),
            DrawStep::EndDraw => Some(DrawStep::Unbind),
            DrawStep::Unbind => Some(DrawStep::EndBackend),
            DrawStep::EndBackend => None,
        }
    }
}

/// The steps of a frame in the order in which they are performed.
pub open spec fn draw_order() -> Seq<DrawStep> {
    seq![
        DrawStep::BeginBackend,
        DrawStep::BeginDraw,
        DrawStep::RunCommands,
        DrawStep::EndDraw,
        DrawStep::Unbind,
        DrawStep::EndBackend,
    ]
}

/// The phase after `p`, given whether the step handed out last succeeded.
pub open spec fn next_phase(p: DrawPhase, succeeded: bool) -> DrawPhase {
    match p {
        DrawPhase::Ready => DrawPhase::Done(DrawStep::BeginBackend),
        DrawPhase::Done(s) => if !succeeded {
            DrawPhase::Over
        } else {
            match s.successor() {
                Some(n) => DrawPhase::Done(n),
                None => DrawPhase::Over,
            }
        },
        DrawPhase::Over => DrawPhase::Over,
    }
}

/// The phase reached from `Ready` when the first `n` reports are all successes.
pub open spec fn after_successes(n: nat) -> DrawPhase
    decreases n,
{
    if n == 0 {
        DrawPhase::Ready
    } else {
        next_phase(after_successes((n - 1) as nat), true)
    }
}

/// The decisions of one frame's draw cycle.
pub struct DrawCycle {
    phase: DrawPhase,
}

impl View for DrawCycle {
    type V = DrawPhase;

    closed spec fn view(&self) -> DrawPhase {
        self.phase
    }
}

impl DrawCycle {
    /// A cycle for a new frame, before its first step.
    pub fn new() -> (r: DrawCycle)
        ensures
            r@ == DrawPhase::Ready,
    {
        DrawCycle { phase: DrawPhase::Ready }
    }

    /// Whether the frame has finished or failed, so that no step is left.
    pub fn is_over(&self) -> (r: bool)
        ensures
            r == (self@ is Over),
    {
        match self.phase {
            DrawPhase::Over => true,
            _ => false,
        }
    }

    /// Takes the outcome of the step handed out last (not looked at on the
    /// first call) and says what to do next.
    pub fn advance(&mut self, outcome: core::result::Result<(), GraphicsError>) -> (r: DrawAction)
        requires
            !(old(self)@ is Over),
        ensures
            final(self)@ == next_phase(old(self)@, outcome is Ok),
            final(self)@ matches DrawPhase::Done(s) ==> r == DrawAction::Perform(s),
            final(self)@ is Over && outcome is Ok ==> r is Finish,
            final(self)@ is Over && outcome is Err ==> r == DrawAction::Abort(outcome->Err_0),
    {
        match self.phase {
            DrawPhase::Ready => {
                self.phase = DrawPhase::Done(DrawStep::BeginBackend);
                DrawAction::Perform(DrawStep::BeginBackend)
            },
            DrawPhase::Done(step) => match outcome {
                Err(e) => {
                    self.phase = DrawPhase::Over;
                    DrawAction::Abort(e)
                },
                Ok(()) => {
                    let next = match step {
                        DrawStep::BeginBackend => Some(DrawStep::BeginDraw),
                        DrawStep::BeginDraw => Some(DrawStep::RunCommands),
                        DrawStep::RunCommands => Some(DrawStep::EndDraw),
                        DrawStep::EndDraw => Some(DrawStep::Unbind),
                        DrawStep::Unbind => Some(DrawStep::EndBackend),
                        DrawStep::EndBackend => None,
                    };
                    match next {
                        Some(n) => {
                            self.phase = DrawPhase::Done(n);
                            DrawAction::Perform(n)
                        },
                        None => {
                            self.phase = DrawPhase::Over;
                            DrawAction::Finish
                        },
                    }
                },
            },
            DrawPhase::Over => DrawAction::Finish,
        }
    }
}

/// When every step succeeds, the cycle hands out each of the six steps once,
/// in the order begin hook, begin draw, commands, end draw, unbind, end hook,
/// and then finishes.
pub proof fn lemma_successful_frame()
    ensures
        draw_order().len() == 6,
        draw_order().no_duplicates(),
        forall|i: int| 0 <= i < 6 ==> after_successes((i + 1) as nat) == DrawPhase::Done(
            #[trigger] draw_order()[i],
        ),
        after_successes(7) is Over,
{
    reveal_with_fuel(after_successes, 8);
    assert(draw_order().no_duplicates());
    assert forall|i: int| 0 <= i < 6 implies after_successes((i + 1) as nat) == DrawPhase::Done(
        #[trigger] draw_order()[i],
    ) by {
        if i == 0 {
        } else if i == 1 {
        } else if i == 2 {
        } else if i == 3 {
        } else if i == 4 {
        } else {
        }
    }
}

/// A failed step ends the frame: no later step is handed out, so a failed
/// end of the draw leaves the target bound and skips the backend's end hook.
pub proof fn lemma_failure_ends_frame(p: DrawPhase)
    requires
        !(p is Ready),
    ensures
        next_phase(p, false) is Over,
        next_phase(next_phase(p, false), true) is Over,
{
}

} // verus!
