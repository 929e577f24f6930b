//! One rendered frame as a state machine: capture every output, read the
//! overlay window's place, set up the pipeline, then for each planned pass map
//! its constants and, where that worked, draw it, and finally present.

use vstd::prelude::*;
use crate::capture::OutputCapture;
use crate::frame::{frame_fits, plan_frame, spec_frame_plan, DrawPass};
use crate::geometry::{Point, Rect};

verus! {

/// Where a frame is.
#[derive(Clone, Copy, Debug, PartialEq, Eq, Structural)]
pub enum FramePhase {
    /// Not begun.
    Start,
    /// Capturing the output of this index.
    Capturing(usize),
    /// Reading the overlay window's place on the desktop.
    ReadingWindow,
    /// Setting up the pipeline.
    SettingUp,
    /// Mapping the constants of the pass of this index.
    Mapping(usize),
    /// Drawing the pass of this index.
    Drawing(usize),
    /// Presenting the frame.
    Presenting,
    /// The frame is over.
    Done,
}

/// What happened to the last action of a frame.
#[derive(Clone, Copy, Debug, PartialEq, Eq, Structural)]
pub enum FrameEvent {
    Begin,
    Captured,
    PipelineReady,
    /// Whether the constant buffer could be mapped.
    Mapped(bool),
    Drawn,
    Presented,
}

/// What the renderer does next.
#[derive(Clone, Copy, Debug, PartialEq, Eq, Structural)]
pub enum FrameAction {
    /// Capture the next frame of the output of this index.
    Capture(usize),
    /// Read the overlay window's place and hand it to `window_read`.
    ReadWindow,
    /// Bind the render target, viewport, shaders, constant buffer and sampler.
    SetUpPipeline,
    /// Map the constant buffer and write the constants of this pass.
    MapConstants(DrawPass),
    /// Unmap the constant buffer, then draw this pass with its scissor
    /// rectangle and its output's view.
    Draw(DrawPass),
    /// Present the frame.
    Present,
    /// The frame is over.
    Finish,
}

/// A frame in progress.
pub struct FrameRun {
    pub phase: FramePhase,
    /// The number of captured outputs.
    pub outputs: usize,
    /// The passes of the frame, once the window's place is known.
    pub passes: Vec<DrawPass>,
}

/// After the passes before index `k`: the pass of index `k`, or presenting.
pub open spec fn next_pass(k: int, passes: Seq<DrawPass>) -> (FramePhase, FrameAction) {
    if k < passes.len() {
        (FramePhase::Mapping(k as usize), FrameAction::MapConstants(passes[k]))
    } else {
        (FramePhase::Presenting, FrameAction::Present)
    }
}

/// After the outputs before index `i`: capturing the output of index `i`, or
/// reading the window.
pub open spec fn next_capture(i: int, outputs: int) -> (FramePhase, FrameAction) {
    if i < outputs {
        (FramePhase::Capturing(i as usize), FrameAction::Capture(i as usize))
    } else {
        (FramePhase::ReadingWindow, FrameAction::ReadWindow)
    }
}

/// Whether the frame takes `e` in `phase`.
pub open spec fn frame_accepts(phase: FramePhase, outputs: int, passes: Seq<DrawPass>, e: FrameEvent) -> bool {
    match phase {
        FramePhase::Start => e is Begin,
        FramePhase::Capturing(i) => e is Captured && i < outputs,
        FramePhase::SettingUp => e is PipelineReady,
        FramePhase::Mapping(k) => e is Mapped && k < passes.len(),
        FramePhase::Drawing(k) => e is Drawn && k < passes.len(),
        FramePhase::Presenting => e is Presented,
        _ => false,
    }
}

/// One step of a frame, for every event but the window's place.
pub open spec fn spec_frame_step(
    phase: FramePhase,
    outputs: int,
    passes: Seq<DrawPass>,
    e: FrameEvent,
) -> (FramePhase, FrameAction) {
    match phase {
        FramePhase::Start => next_capture(0, outputs),
        FramePhase::Capturing(i) => next_capture(i + 1, outputs),
        FramePhase::SettingUp => next_pass(0, passes),
        FramePhase::Mapping(k) => match e {
            FrameEvent::Mapped(true) => (FramePhase::Drawing(k), FrameAction::Draw(passes[k as int])),
            _ => next_pass(k + 1, passes),
        },
        FramePhase::Drawing(k) => next_pass(k + 1, passes),
        _ => (FramePhase::Done, FrameAction::Finish),
    }
}

impl FrameRun {
    /// A frame over `outputs` captured outputs, not begun.
    pub fn new(outputs: usize) -> (f: FrameRun)
        ensures
            f.phase == FramePhase::Start,
            f.outputs == outputs,
            f.passes@.len() == 0,
    {
        FrameRun { phase: FramePhase::Start, outputs, passes: Vec::new() }
    }

    fn next_pass(&mut self, k: usize) -> (a: FrameAction)
        requires
            k <= old(self).passes@.len(),
        ensures
            final(self).outputs == old(self).outputs,
            final(self).passes == old(self).passes,
            (final(self).phase, a) == next_pass(k as int, old(self).passes@),
    {
        if k < self.passes.len() {
            self.phase = FramePhase::Mapping(k);
            FrameAction::MapConstants(self.passes[k])
        } else {
            self.phase = FramePhase::Presenting;
            FrameAction::Present
        }
    }

    fn next_capture(&mut self, i: usize) -> (a: FrameAction)
        requires
            i <= old(self).outputs,
        ensures
            final(self).outputs == old(self).outputs,
            final(self).passes == old(self).passes,
            (final(self).phase, a) == next_capture(i as int, old(self).outputs as int),
    {
        if i < self.outputs {
            self.phase = FramePhase::Capturing(i);
            FrameAction::Capture(i)
        } else {
            self.phase = FramePhase::ReadingWindow;
            FrameAction::ReadWindow
        }
    }

    /// Takes the outcome of the last action and says what to do next.
    pub fn step(&mut self, e: FrameEvent) -> (a: FrameAction)
        requires
            frame_accepts(old(self).phase, old(self).outputs as int, old(self).passes@, e),
        ensures
            final(self).outputs == old(self).outputs,
            final(self).passes == old(self).passes,
            (final(self).phase, a) == spec_frame_step(
                old(self).phase,
                old(self).outputs as int,
                old(self).passes@,
                e,
            ),
    {
        match self.phase {
            FramePhase::Start => self.next_capture(0),
            FramePhase::Capturing(i) => self.next_capture(i + 1),
            FramePhase::SettingUp => self.next_pass(0),
            FramePhase::Mapping(k) => {
                let count = self.passes.len();
                assert(k < count);
                if let FrameEvent::Mapped(true) = e {
                    self.phase = FramePhase::Drawing(k);
                    FrameAction::Draw(self.passes[k])
                } else {
                    self.next_pass(k + 1)
                }
            },
            FramePhase::Drawing(k) => {
                let count = self.passes.len();
                assert(k < count);
                self.next_pass(k + 1)
            },
            _ => {
                self.phase = FramePhase::Done;
                FrameAction::Finish
            },
        }
    }

    /// Takes the overlay window's place, `None` where it could not be read:
    /// then the frame ends without drawing or presenting. Otherwise the frame
    /// plans its passes over the captured outputs, with the lens at `lens` of
    /// size `size`, in a window of `width` by `height` pixels.
    pub fn window_read(
        &mut self,
        window: Option<Rect>,
        outputs: &Vec<OutputCapture>,
        lens: Point,
        size: Point,
        width: i32,
        height: i32,
    ) -> (a: FrameAction)
        requires
            old(self).phase == FramePhase::ReadingWindow,
            outputs@.len() == old(self).outputs,
            window matches Some(w) ==> frame_fits(outputs@, w, lens),
        ensures
            final(self).outputs == old(self).outputs,
            match window {
                None => {
                    &&& final(self).phase == FramePhase::Done
                    &&& a == FrameAction::Finish
                    &&& final(self).passes == old(self).passes
                },
                Some(w) => {
                    &&& final(self).phase == FramePhase::SettingUp
                    &&& a == FrameAction::SetUpPipeline
                    &&& final(self).passes@ == spec_frame_plan(
                        outputs@,
                        w,
                        lens,
                        size,
                        width as int,
                        height as int,
                    )
                },
            },
    {
        match window {
            None => {
                self.phase = FramePhase::Done;
                FrameAction::Finish
            },
            Some(w) => {
                self.passes = plan_frame(outputs, w, lens, size, width, height);
                self.phase = FramePhase::SettingUp;
                FrameAction::SetUpPipeline
            },
        }
    }
}

/// Every output is captured, in order, before the window's place is read:
/// the capture of output `i` is followed by that of output `i + 1`, and the
/// window is read only after the last output, or at once where there is none.
pub proof fn lemma_captures_come_first(
    phase: FramePhase,
    outputs: int,
    passes: Seq<DrawPass>,
    e: FrameEvent,
)
    requires
        frame_accepts(phase, outputs, passes, e),
        0 <= outputs <= usize::MAX,
    ensures
        ({
            let (n, a) = spec_frame_step(phase, outputs, passes, e);
            &&& phase == FramePhase::Start ==> a == (if outputs > 0 {
                FrameAction::Capture(0)
            } else {
                FrameAction::ReadWindow
            })
            &&& a == FrameAction::ReadWindow ==> (phase == FramePhase::Start && outputs == 0) || (
            phase == FramePhase::Capturing((outputs - 1) as usize))
            &&& (a matches FrameAction::Capture(j) ==> (j == 0 && phase == FramePhase::Start) || (
            j > 0 && phase == FramePhase::Capturing((j - 1) as usize)))
        }),
{
}

/// A pass is drawn only right after its constants were mapped, each pass is
/// offered once, in order, and the frame is presented only once every pass has
/// had its turn, after the pipeline was set up for a window that was read.
pub proof fn lemma_passes_in_order(
    phase: FramePhase,
    outputs: int,
    passes: Seq<DrawPass>,
    e: FrameEvent,
)
    requires
        frame_accepts(phase, outputs, passes, e),
        passes.len() <= usize::MAX,
    ensures
        ({
            let (n, a) = spec_frame_step(phase, outputs, passes, e);
            &&& (a matches FrameAction::Draw(p) ==> (phase matches FramePhase::Mapping(k) && e
                == FrameEvent::Mapped(true) && p == passes[k as int] && n == FramePhase::Drawing(
                k,
            )))
            &&& (a matches FrameAction::MapConstants(p) ==> (n matches FramePhase::Mapping(k) && p
                == passes[k as int] && ((k == 0 && phase == FramePhase::SettingUp) || (k > 0 && (
            phase == FramePhase::Mapping((k - 1) as usize) || phase == FramePhase::Drawing(
                (k - 1) as usize,
            ))))))
            &&& a == FrameAction::Present ==> match phase {
                FramePhase::SettingUp => passes.len() == 0,
                FramePhase::Mapping(k) => k + 1 == passes.len() && e != FrameEvent::Mapped(true),
                FramePhase::Drawing(k) => k + 1 == passes.len(),
                _ => false,
            }
        }),
{
}

/// Every pass of the frame is drawn once its constants are mapped, and a pass
/// whose constants could not be mapped is skipped; after a pass the next one
/// follows, and after the last, the frame is presented.
pub proof fn lemma_mapped_pass_is_drawn(outputs: int, passes: Seq<DrawPass>, k: int)
    requires
        0 <= k < passes.len(),
        passes.len() <= usize::MAX,
    ensures
        spec_frame_step(FramePhase::Mapping(k as usize), outputs, passes, FrameEvent::Mapped(true))
            == (FramePhase::Drawing(k as usize), FrameAction::Draw(passes[k])),
        spec_frame_step(FramePhase::Drawing(k as usize), outputs, passes, FrameEvent::Drawn) == (
            if k + 1 < passes.len() {
                (FramePhase::Mapping((k + 1) as usize), FrameAction::MapConstants(passes[k + 1]))
            } else {
                (FramePhase::Presenting, FrameAction::Present)
            }
        ),
        spec_frame_step(FramePhase::Mapping(k as usize), outputs, passes, FrameEvent::Mapped(false))
            == (if k + 1 < passes.len() {
            (FramePhase::Mapping((k + 1) as usize), FrameAction::MapConstants(passes[k + 1]))
        } else {
            (FramePhase::Presenting, FrameAction::Present)
        }),
        spec_frame_step(FramePhase::SettingUp, outputs, passes, FrameEvent::PipelineReady) == (
        FramePhase::Mapping(0), FrameAction::MapConstants(passes[0])),
{
}

} // verus!
