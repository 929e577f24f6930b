//! Desktop capture, one output at a time: which outputs are captured, and the
//! protocol that takes one desktop frame of an output into a texture that the
//! lens shader can sample.

use vstd::prelude::*;
use crate::geometry::Rect;

verus! {

/// How long the first capture of an output waits for a frame, in milliseconds.
/// Once the output has a texture, capture does not wait.
pub const FIRST_FRAME_TIMEOUT_MS: u32 = 100;

/// The bind flag that lets a shader read a texture (`D3D11_BIND_SHADER_RESOURCE`).
pub const BIND_SHADER_RESOURCE: u32 = 0x8;

/// The usage of a texture that only the GPU reads and writes (`D3D11_USAGE_DEFAULT`).
pub const USAGE_DEFAULT: i32 = 0;

/// The description of a 2D texture, field for field as Direct3D 11 has it.
#[derive(Clone, Copy, Debug, PartialEq, Eq, Structural)]
pub struct TextureDesc {
    pub width: u32,
    pub height: u32,
    pub mip_levels: u32,
    pub array_size: u32,
    /// The pixel format, by its DXGI number.
    pub format: i32,
    pub sample_count: u32,
    pub sample_quality: u32,
    pub usage: i32,
    pub bind_flags: u32,
    pub cpu_access_flags: u32,
    pub misc_flags: u32,
}

/// Two textures have the same shape when their size and pixel format agree:
/// a frame can then be copied from one into the other.
pub open spec fn same_shape(a: TextureDesc, b: TextureDesc) -> bool {
    a.width == b.width && a.height == b.height && a.format == b.format
}

/// An output needs a new texture for a frame when it has none, or when its
/// texture has another shape than the frame.
pub open spec fn spec_needs_new_texture(current: Option<TextureDesc>, frame: TextureDesc) -> bool {
    match current {
        None => true,
        Some(t) => !same_shape(t, frame),
    }
}

/// The description of the texture that receives a frame: the frame's own
/// description, made a GPU-only texture that shaders can read, with no other
/// flags.
pub open spec fn spec_copy_target_desc(frame: TextureDesc) -> TextureDesc {
    TextureDesc {
        bind_flags: BIND_SHADER_RESOURCE,
        cpu_access_flags: 0,
        usage: USAGE_DEFAULT,
        misc_flags: 0,
        ..frame
    }
}

/// Whether an output needs a new texture for a frame.
pub fn needs_new_texture(current: &Option<TextureDesc>, frame: &TextureDesc) -> (r: bool)
    ensures
        r == spec_needs_new_texture(*current, *frame),
{
    match current {
        None => true,
        Some(t) => !(t.width == frame.width && t.height == frame.height && t.format
            == frame.format),
    }
}

/// The description of the texture that receives a frame.
pub fn copy_target_desc(frame: &TextureDesc) -> (r: TextureDesc)
    ensures
        r == spec_copy_target_desc(*frame),
{
    TextureDesc {
        bind_flags: BIND_SHADER_RESOURCE,
        cpu_access_flags: 0,
        usage: USAGE_DEFAULT,
        misc_flags: 0,
        ..*frame
    }
}

/// Where an output is in the capture of one frame.
#[derive(Clone, Copy, Debug, PartialEq, Eq, Structural)]
pub enum CapturePhase {
    /// No capture in progress.
    Idle,
    /// Waiting for the next frame.
    Acquiring,
    /// A frame is held; a texture of this description is being created for it.
    CreatingTexture(TextureDesc),
    /// A frame is held; a shader view of the new texture is being created.
    CreatingView,
    /// A frame is held and being copied into the texture.
    Copying,
    /// A frame is held and being released.
    Releasing,
}

/// What happened to the last action of the capture.
#[derive(Clone, Copy, Debug, PartialEq, Eq, Structural)]
pub enum CaptureEvent {
    /// A new capture begins.
    Begin,
    /// No frame came: the wait timed out or the duplication failed.
    AcquireFailed,
    /// A frame came; its description where it is a 2D texture, `None` where
    /// it carries no texture.
    FrameAcquired(Option<TextureDesc>),
    TextureCreated,
    TextureFailed,
    ViewCreated,
    ViewFailed,
    Copied,
    Released,
}

/// What the renderer does next for the output.
#[derive(Clone, Copy, Debug, PartialEq, Eq, Structural)]
pub enum CaptureAction {
    /// Wait at most this many milliseconds for the next frame.
    Acquire { timeout_ms: u32 },
    /// Create a texture of this description.
    CreateTexture(TextureDesc),
    /// Create a shader view of the texture just created.
    CreateView,
    /// Copy the frame into the output's texture.
    CopyFrame,
    /// Release the frame.
    ReleaseFrame,
    /// The capture is over.
    Done,
}

/// One output of the desktop and what the renderer holds for it.
#[derive(Clone, Copy, Debug, PartialEq, Eq, Structural)]
pub struct OutputCapture {
    /// The output's place on the virtual desktop.
    pub rect: Rect,
    /// The description of the texture that holds its last frame, if any.
    pub texture: Option<TextureDesc>,
    /// Whether the renderer holds a shader view to sample its frame through.
    pub has_view: bool,
    pub phase: CapturePhase,
}

/// The phases in which the output holds an acquired frame, which it must
/// release.
pub open spec fn holds_frame(p: CapturePhase) -> bool {
    p is CreatingTexture || p is CreatingView || p is Copying || p is Releasing
}

/// The output's invariant: a view is only held together with a texture, and
/// the steps that use the texture only run while there is one.
pub open spec fn capture_wf(s: OutputCapture) -> bool {
    &&& s.has_view ==> s.texture is Some
    &&& (s.phase is CreatingView || s.phase is Copying) ==> s.texture is Some
}

/// Whether the capture takes `e` in state `s`: a new capture only when idle,
/// and otherwise the outcome of the action it asked for last.
pub open spec fn capture_accepts(s: OutputCapture, e: CaptureEvent) -> bool {
    match s.phase {
        CapturePhase::Idle => e is Begin,
        CapturePhase::Acquiring => e is AcquireFailed || e is FrameAcquired,
        CapturePhase::CreatingTexture(_) => e is TextureCreated || e is TextureFailed,
        CapturePhase::CreatingView => e is ViewCreated || e is ViewFailed,
        CapturePhase::Copying => e is Copied,
        CapturePhase::Releasing => e is Released,
    }
}

/// How long to wait for a frame: not at all once the output has a texture.
pub open spec fn spec_acquire_timeout(has_texture: bool) -> u32 {
    if has_texture { 0 } else { FIRST_FRAME_TIMEOUT_MS }
}

/// One step of the capture of an output.
pub open spec fn spec_capture_step(s: OutputCapture, e: CaptureEvent) -> (
    OutputCapture,
    CaptureAction,
) {
    match s.phase {
        CapturePhase::Idle => (
            OutputCapture { phase: CapturePhase::Acquiring, ..s },
            CaptureAction::Acquire { timeout_ms: spec_acquire_timeout(s.texture is Some) },
        ),
        CapturePhase::Acquiring => match e {
            CaptureEvent::FrameAcquired(Some(frame)) => if spec_needs_new_texture(
                s.texture,
                frame,
            ) {
                let d = spec_copy_target_desc(frame);
                (
                    OutputCapture { phase: CapturePhase::CreatingTexture(d), ..s },
                    CaptureAction::CreateTexture(d),
                )
            } else {
                (OutputCapture { phase: CapturePhase::Copying, ..s }, CaptureAction::CopyFrame)
            },
            CaptureEvent::FrameAcquired(None) => (
                OutputCapture { phase: CapturePhase::Releasing, ..s },
                CaptureAction::ReleaseFrame,
            ),
            _ => (OutputCapture { phase: CapturePhase::Idle, ..s }, CaptureAction::Done),
        },
        CapturePhase::CreatingTexture(d) => match e {
            CaptureEvent::TextureCreated => (
                OutputCapture { texture: Some(d), phase: CapturePhase::CreatingView, ..s },
                CaptureAction::CreateView,
            ),
            _ => if s.texture is Some {
                (OutputCapture { phase: CapturePhase::Copying, ..s }, CaptureAction::CopyFrame)
            } else {
                (
                    OutputCapture { phase: CapturePhase::Releasing, ..s },
                    CaptureAction::ReleaseFrame,
                )
            },
        },
        CapturePhase::CreatingView => match e {
            CaptureEvent::ViewCreated => (
                OutputCapture { has_view: true, phase: CapturePhase::Copying, ..s },
                CaptureAction::CopyFrame,
            ),
            _ => (OutputCapture { phase: CapturePhase::Copying, ..s }, CaptureAction::CopyFrame),
        },
        CapturePhase::Copying => (
            OutputCapture { phase: CapturePhase::Releasing, ..s },
            CaptureAction::ReleaseFrame,
        ),
        CapturePhase::Releasing => (
            OutputCapture { phase: CapturePhase::Idle, ..s },
            CaptureAction::Done,
        ),
    }
}

impl OutputCapture {
    /// A newly found output: nothing captured yet.
    pub fn new(rect: Rect) -> (s: OutputCapture)
        ensures
            s.rect == rect,
            s.texture is None,
            !s.has_view,
            s.phase == CapturePhase::Idle,
            capture_wf(s),
    {
        OutputCapture { rect, texture: None, has_view: false, phase: CapturePhase::Idle }
    }

    /// Takes the outcome of the last action and says what to do next.
    pub fn step(&mut self, e: CaptureEvent) -> (a: CaptureAction)
        requires
            capture_accepts(*old(self), e),
        ensures
            (*final(self), a) == spec_capture_step(*old(self), e),
    {
        match self.phase {
            CapturePhase::Idle => {
                self.phase = CapturePhase::Acquiring;
                let timeout_ms = if self.texture.is_some() {
                    0
                } else {
                    FIRST_FRAME_TIMEOUT_MS
                };
                CaptureAction::Acquire { timeout_ms }
            },
            CapturePhase::Acquiring => match e {
                CaptureEvent::FrameAcquired(Some(frame)) => {
                    if needs_new_texture(&self.texture, &frame) {
                        let d = copy_target_desc(&frame);
                        self.phase = CapturePhase::CreatingTexture(d);
                        CaptureAction::CreateTexture(d)
                    } else {
                        self.phase = CapturePhase::Copying;
                        CaptureAction::CopyFrame
                    }
                },
                CaptureEvent::FrameAcquired(None) => {
                    self.phase = CapturePhase::Releasing;
                    CaptureAction::ReleaseFrame
                },
                _ => {
                    self.phase = CapturePhase::Idle;
                    CaptureAction::Done
                },
            },
            CapturePhase::CreatingTexture(d) => match e {
                CaptureEvent::TextureCreated => {
                    self.texture = Some(d);
                    self.phase = CapturePhase::CreatingView;
                    CaptureAction::CreateView
                },
                _ => {
                    if self.texture.is_some() {
                        self.phase = CapturePhase::Copying;
                        CaptureAction::CopyFrame
                    } else {
                        self.phase = CapturePhase::Releasing;
                        CaptureAction::ReleaseFrame
                    }
                },
            },
            CapturePhase::CreatingView => {
                if let CaptureEvent::ViewCreated = e {
                    self.has_view = true;
                }
                self.phase = CapturePhase::Copying;
                CaptureAction::CopyFrame
            },
            CapturePhase::Copying => {
                self.phase = CapturePhase::Releasing;
                CaptureAction::ReleaseFrame
            },
            CapturePhase::Releasing => {
                self.phase = CapturePhase::Idle;
                CaptureAction::Done
            },
        }
    }
}

/// Why capture could not start.
#[derive(Clone, Copy, Debug, PartialEq, Eq, Structural)]
pub enum CaptureError {
    /// The graphics adapter drives no output that could be duplicated.
    NoOutputs,
}

/// The outputs of the graphics adapter, in the order the adapter lists them,
/// each with its capture state.
pub struct Captures {
    outputs: Vec<OutputCapture>,
}

impl View for Captures {
    type V = Seq<OutputCapture>;

    closed spec fn view(&self) -> Seq<OutputCapture> {
        self.outputs@
    }
}

impl Captures {
    /// No outputs yet.
    pub fn new() -> (c: Captures)
        ensures
            c@ == Seq::<OutputCapture>::empty(),
    {
        Captures { outputs: Vec::new() }
    }

    /// The number of outputs found so far, which is also the index under which
    /// the adapter is asked for the next one.
    pub fn len(&self) -> (n: usize)
        ensures
            n == self@.len(),
    {
        self.outputs.len()
    }

    /// Records the next output of the adapter, with nothing captured yet.
    pub fn add_output(&mut self, rect: Rect)
        ensures
            final(self)@ == old(self)@.push(
                OutputCapture { rect, texture: None, has_view: false, phase: CapturePhase::Idle },
            ),
    {
        self.outputs.push(OutputCapture::new(rect));
    }

    /// Ends the listing of the outputs: capture needs at least one.
    pub fn finish_enumeration(&self) -> (r: Result<(), CaptureError>)
        ensures
            r is Err <==> self@.len() == 0,
            r is Err ==> r == Err::<(), CaptureError>(CaptureError::NoOutputs),
    {
        if self.outputs.len() == 0 {
            Err(CaptureError::NoOutputs)
        } else {
            Ok(())
        }
    }

    /// All outputs, in the adapter's order.
    pub fn outputs(&self) -> (v: &Vec<OutputCapture>)
        ensures
            v@ == self@,
    {
        &self.outputs
    }

    /// Takes the outcome of the last capture action of output `i` and says
    /// what to do next for it; the other outputs are left as they are.
    pub fn step_output(&mut self, i: usize, e: CaptureEvent) -> (a: CaptureAction)
        requires
            i < old(self)@.len(),
            capture_accepts(old(self)@[i as int], e),
        ensures
            final(self)@ == old(self)@.update(
                i as int,
                spec_capture_step(old(self)@[i as int], e).0,
            ),
            a == spec_capture_step(old(self)@[i as int], e).1,
    {
        let mut o = self.outputs[i];
        let a = o.step(e);
        self.outputs.set(i, o);
        a
    }
}

/// Every step keeps the output's invariant: a view is never held without a
/// texture, and a frame is only copied while there is a texture to take it.
pub proof fn lemma_capture_preserves_wf(s: OutputCapture, e: CaptureEvent)
    requires
        capture_wf(s),
        capture_accepts(s, e),
    ensures
        capture_wf(spec_capture_step(s, e).0),
        spec_capture_step(s, e).1 == CaptureAction::CopyFrame ==> spec_capture_step(s, e).0.texture is Some,
{
}

/// A capture waits for the first frame of an output, and never once the output
/// has a texture.
pub proof fn lemma_acquire_timeout(s: OutputCapture)
    requires
        s.phase == CapturePhase::Idle,
    ensures
        spec_capture_step(s, CaptureEvent::Begin).1 == (CaptureAction::Acquire {
            timeout_ms: if s.texture is Some { 0 } else { FIRST_FRAME_TIMEOUT_MS },
        }),
{
}

/// Every acquired frame is released: a capture that holds a frame only stops
/// holding it by releasing it, and a capture only ends where no frame came or
/// where the frame was released.
pub proof fn lemma_frames_are_released(s: OutputCapture, e: CaptureEvent)
    requires
        capture_accepts(s, e),
    ensures
        ({
            let (n, a) = spec_capture_step(s, e);
            &&& (s.phase is Acquiring && e is FrameAcquired) ==> holds_frame(n.phase)
            &&& (holds_frame(s.phase) && !holds_frame(n.phase)) ==> (s.phase
                == CapturePhase::Releasing && e == CaptureEvent::Released)
            &&& a == CaptureAction::Done ==> ((s.phase == CapturePhase::Acquiring && e
                == CaptureEvent::AcquireFailed) || (s.phase == CapturePhase::Releasing && e
                == CaptureEvent::Released))
            &&& a == CaptureAction::Done <==> n.phase == CapturePhase::Idle
        }),
{
}

/// The number of steps left before the capture in phase `p` ends.
pub open spec fn steps_left(p: CapturePhase) -> nat {
    match p {
        CapturePhase::Idle => 0,
        CapturePhase::Acquiring => 5,
        CapturePhase::CreatingTexture(_) => 4,
        CapturePhase::CreatingView => 3,
        CapturePhase::Copying => 2,
        CapturePhase::Releasing => 1,
    }
}

/// A capture ends: once begun, it reaches the idle phase again after at most
/// five more steps, since every step brings it closer.
pub proof fn lemma_capture_ends(s: OutputCapture, e: CaptureEvent)
    requires
        capture_accepts(s, e),
        s.phase != CapturePhase::Idle,
    ensures
        steps_left(spec_capture_step(s, e).0.phase) < steps_left(s.phase),
{
}

/// The texture of an output changes only when a texture has been created for
/// a frame, and then it becomes that texture; the output's place never changes.
pub proof fn lemma_texture_changes_only_on_creation(s: OutputCapture, e: CaptureEvent)
    requires
        capture_accepts(s, e),
    ensures
        ({
            let n = spec_capture_step(s, e).0;
            &&& n.rect == s.rect
            &&& n.texture != s.texture ==> (e == CaptureEvent::TextureCreated && match s.phase {
                CapturePhase::CreatingTexture(d) => n.texture == Some(d),
                _ => false,
            })
        }),
{
}

/// A texture created for a frame takes every later frame of the same shape
/// without being created again, and an output keeps its texture only for
/// frames of that texture's shape.
pub proof fn lemma_texture_fits_frames(frame: TextureDesc, next: TextureDesc, t: TextureDesc)
    ensures
        same_shape(frame, next) ==> !spec_needs_new_texture(
            Some(spec_copy_target_desc(frame)),
            next,
        ),
        !spec_needs_new_texture(Some(t), next) ==> same_shape(t, next),
        spec_needs_new_texture(None, next),
{
}

/// The state of an output after the events `events`, one step each, in order.
pub open spec fn spec_capture_run(s: OutputCapture, events: Seq<CaptureEvent>) -> OutputCapture
    decreases events.len(),
{
    if events.len() == 0 {
        s
    } else {
        spec_capture_step(spec_capture_run(s, events.drop_last()), events.last()).0
    }
}

/// Each event of `events` is taken in the state that the events before it
/// lead to.
pub open spec fn capture_run_accepted(s: OutputCapture, events: Seq<CaptureEvent>) -> bool
    decreases events.len(),
{
    events.len() == 0 || (capture_run_accepted(s, events.drop_last()) && capture_accepts(
        spec_capture_run(s, events.drop_last()),
        events.last(),
    ))
}

/// Over any run of captures, however many and however they fail, an output
/// never loses what it holds: once it has a texture it keeps one, once it
/// has a view it keeps one, a view never stands without a texture, and the
/// output stays where it is on the desktop.
pub proof fn lemma_capture_run_keeps_texture_and_view(s: OutputCapture, events: Seq<CaptureEvent>)
    requires
        capture_wf(s),
        capture_run_accepted(s, events),
    ensures
        ({
            let f = spec_capture_run(s, events);
            &&& capture_wf(f)
            &&& s.texture is Some ==> f.texture is Some
            &&& s.has_view ==> f.has_view
            &&& f.rect == s.rect
        }),
    decreases events.len(),
{
    if events.len() > 0 {
        lemma_capture_run_keeps_texture_and_view(s, events.drop_last());
        lemma_capture_preserves_wf(spec_capture_run(s, events.drop_last()), events.last());
    }
}

/// A texture that was just created always gets a view of its own before any
/// frame is copied into it, whether or not the output held a view of an older
/// texture; once the view is made, the frame is copied, and where it cannot
/// be made, the frame is copied all the same.
pub proof fn lemma_new_texture_gets_view(s: OutputCapture, d: TextureDesc)
    requires
        s.phase == CapturePhase::CreatingTexture(d),
    ensures
        spec_capture_step(s, CaptureEvent::TextureCreated) == (
            OutputCapture { texture: Some(d), phase: CapturePhase::CreatingView, ..s },
            CaptureAction::CreateView,
        ),
        ({
            let v = OutputCapture { texture: Some(d), phase: CapturePhase::CreatingView, ..s };
            &&& spec_capture_step(v, CaptureEvent::ViewCreated) == (
                OutputCapture { has_view: true, phase: CapturePhase::Copying, ..v },
                CaptureAction::CopyFrame,
            )
            &&& spec_capture_step(v, CaptureEvent::ViewFailed) == (
                OutputCapture { phase: CapturePhase::Copying, ..v },
                CaptureAction::CopyFrame,
            )
        }),
{
}

/// A frame of a new shape leads to a new texture of the frame's size and
/// format, made readable by shaders; a frame of the texture's own shape is
/// copied into the texture as it is.
pub proof fn lemma_frame_shape_decides(s: OutputCapture, frame: TextureDesc)
    requires
        s.phase == CapturePhase::Acquiring,
    ensures
        ({
            let (n, a) = spec_capture_step(s, CaptureEvent::FrameAcquired(Some(frame)));
            let fresh = match s.texture {
                None => true,
                Some(t) => t.width != frame.width || t.height != frame.height || t.format
                    != frame.format,
            };
            &&& fresh ==> (a matches CaptureAction::CreateTexture(d) && n.phase
                == CapturePhase::CreatingTexture(d) && d.width == frame.width && d.height
                == frame.height && d.format == frame.format && d.mip_levels == frame.mip_levels
                && d.array_size == frame.array_size && d.sample_count == frame.sample_count
                && d.sample_quality == frame.sample_quality && d.bind_flags == BIND_SHADER_RESOURCE
                && d.usage == USAGE_DEFAULT && d.cpu_access_flags == 0 && d.misc_flags == 0)
            &&& !fresh ==> (a == CaptureAction::CopyFrame && n.phase == CapturePhase::Copying)
            &&& n.texture == s.texture && n.has_view == s.has_view
        }),
{
}

/// Failures and the end of a capture: no frame ends the capture without a
/// release; a frame without a texture is released; a texture that could not be
/// created leaves the old texture, into which the frame is then copied, or,
/// without one, the frame is released; a copied frame is released, and a
/// released frame ends the capture. None of these touches the texture or view.
pub proof fn lemma_capture_failures_and_end(s: OutputCapture, d: TextureDesc)
    ensures
        s.phase == CapturePhase::Acquiring ==> spec_capture_step(s, CaptureEvent::AcquireFailed) == (
            OutputCapture { phase: CapturePhase::Idle, ..s },
            CaptureAction::Done,
        ),
        s.phase == CapturePhase::Acquiring ==> spec_capture_step(s, CaptureEvent::FrameAcquired(None))
            == (OutputCapture { phase: CapturePhase::Releasing, ..s }, CaptureAction::ReleaseFrame),
        s.phase == CapturePhase::CreatingTexture(d) ==> spec_capture_step(
            s,
            CaptureEvent::TextureFailed,
        ) == if s.texture is Some {
            (OutputCapture { phase: CapturePhase::Copying, ..s }, CaptureAction::CopyFrame)
        } else {
            (OutputCapture { phase: CapturePhase::Releasing, ..s }, CaptureAction::ReleaseFrame)
        },
        s.phase == CapturePhase::Copying ==> spec_capture_step(s, CaptureEvent::Copied) == (
            OutputCapture { phase: CapturePhase::Releasing, ..s },
            CaptureAction::ReleaseFrame,
        ),
        s.phase == CapturePhase::Releasing ==> spec_capture_step(s, CaptureEvent::Released) == (
            OutputCapture { phase: CapturePhase::Idle, ..s },
            CaptureAction::Done,
        ),
{
}

} // verus!
