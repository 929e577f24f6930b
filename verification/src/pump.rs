//! The message loop: it handles a bounded number of window messages, then
//! renders a frame, so that rendering goes on while messages keep coming.

use vstd::prelude::*;

verus! {

/// The most window messages handled between two frames.
pub const MESSAGES_PER_FRAME: u32 = 32;

/// What a look into the thread's message queue found.
#[derive(Clone, Copy, Debug, PartialEq, Eq, Structural)]
pub enum Peeked {
    /// The queue is empty.
    Nothing,
    /// The quit message.
    Quit,
    /// Any other message; it was taken from the queue.
    Message,
}

/// An event of the message loop.
#[derive(Clone, Copy, Debug, PartialEq, Eq, Structural)]
pub enum PumpEvent {
    /// The loop is ready for its next step: it started, or it finished the
    /// last dispatch or frame.
    Ready,
    /// The queue was looked into.
    Peeked(Peeked),
}

/// What the message loop does next.
#[derive(Clone, Copy, Debug, PartialEq, Eq, Structural)]
pub enum PumpAction {
    /// Look into the queue, taking the next message if there is one.
    Peek,
    /// Translate and dispatch the message taken.
    Dispatch,
    /// Render a frame.
    Render,
    /// Leave the loop: the program ends.
    Exit,
}

/// The message loop's state.
#[derive(Clone, Copy, Debug, PartialEq, Eq, Structural)]
pub struct Pump {
    /// Messages handled since the last frame.
    pub handled: u32,
    /// The last action was `Peek`.
    pub peeking: bool,
}

/// The loop's invariant: it never handles more messages than a frame allows,
/// and it looks into the queue only while it may still handle one.
pub open spec fn pump_wf(p: Pump) -> bool {
    &&& p.handled <= MESSAGES_PER_FRAME
    &&& p.peeking ==> p.handled < MESSAGES_PER_FRAME
}

/// Whether the loop takes `e` in state `p`: the result of a look into the
/// queue after `Peek`, `Ready` otherwise.
pub open spec fn pump_accepts(p: Pump, e: PumpEvent) -> bool {
    if p.peeking {
        e is Peeked
    } else {
        e is Ready
    }
}

/// One step of the message loop.
pub open spec fn spec_pump_step(p: Pump, e: PumpEvent) -> (Pump, PumpAction) {
    match e {
        PumpEvent::Ready => if p.handled < MESSAGES_PER_FRAME {
            (Pump { peeking: true, ..p }, PumpAction::Peek)
        } else {
            (Pump { handled: 0, peeking: false }, PumpAction::Render)
        },
        PumpEvent::Peeked(Peeked::Nothing) => (
            Pump { handled: 0, peeking: false },
            PumpAction::Render,
        ),
        PumpEvent::Peeked(Peeked::Quit) => (Pump { peeking: false, ..p }, PumpAction::Exit),
        PumpEvent::Peeked(Peeked::Message) => (
            Pump { handled: (p.handled + 1) as u32, peeking: false },
            PumpAction::Dispatch,
        ),
    }
}

impl Pump {
    /// The loop before its first step.
    pub fn new() -> (p: Pump)
        ensures
            p.handled == 0,
            !p.peeking,
            pump_wf(p),
    {
        Pump { handled: 0, peeking: false }
    }

    /// Takes one event and says what to do next.
    pub fn step(&mut self, e: PumpEvent) -> (a: PumpAction)
        requires
            pump_wf(*old(self)),
            pump_accepts(*old(self), e),
        ensures
            (*final(self), a) == spec_pump_step(*old(self), e),
    {
        match e {
            PumpEvent::Ready => {
                if self.handled < MESSAGES_PER_FRAME {
                    self.peeking = true;
                    PumpAction::Peek
                } else {
                    self.handled = 0;
                    self.peeking = false;
                    PumpAction::Render
                }
            },
            PumpEvent::Peeked(Peeked::Nothing) => {
                self.handled = 0;
                self.peeking = false;
                PumpAction::Render
            },
            PumpEvent::Peeked(Peeked::Quit) => {
                self.peeking = false;
                PumpAction::Exit
            },
            PumpEvent::Peeked(Peeked::Message) => {
                self.handled = self.handled + 1;
                self.peeking = false;
                PumpAction::Dispatch
            },
        }
    }
}

/// Every step keeps the loop's invariant, so that at most
/// `MESSAGES_PER_FRAME` messages are dispatched between two frames: each
/// dispatch counts one message, each frame starts the count anew, and a full
/// count renders.
pub proof fn lemma_pump_bounds_messages(p: Pump, e: PumpEvent)
    requires
        pump_wf(p),
        pump_accepts(p, e),
    ensures
        ({
            let (n, a) = spec_pump_step(p, e);
            &&& pump_wf(n)
            &&& a == PumpAction::Dispatch ==> n.handled == p.handled + 1
            &&& a == PumpAction::Render ==> n.handled == 0
            &&& (a != PumpAction::Dispatch && a != PumpAction::Render) ==> n.handled == p.handled
            &&& (e == PumpEvent::Ready && p.handled == MESSAGES_PER_FRAME) ==> a
                == PumpAction::Render
        }),
{
}

/// The quit message ends the loop, and nothing else does.
pub proof fn lemma_only_quit_exits(p: Pump, e: PumpEvent)
    requires
        pump_accepts(p, e),
    ensures
        spec_pump_step(p, e).1 == PumpAction::Exit <==> e == PumpEvent::Peeked(Peeked::Quit),
{
}

/// The loop looks into the queue while fewer than `MESSAGES_PER_FRAME`
/// messages were handled since the last frame, dispatches every message it
/// takes, renders when the queue is empty or the count is full, and leaves on
/// the quit message.
pub proof fn lemma_pump_decisions(p: Pump)
    requires
        pump_wf(p),
    ensures
        !p.peeking && p.handled < MESSAGES_PER_FRAME ==> spec_pump_step(p, PumpEvent::Ready).1
            == PumpAction::Peek,
        !p.peeking && p.handled == MESSAGES_PER_FRAME ==> spec_pump_step(p, PumpEvent::Ready).1
            == PumpAction::Render,
        p.peeking ==> spec_pump_step(p, PumpEvent::Peeked(Peeked::Message)) == (
            Pump { handled: (p.handled + 1) as u32, peeking: false },
            PumpAction::Dispatch,
        ),
        p.peeking ==> spec_pump_step(p, PumpEvent::Peeked(Peeked::Nothing)) == (
            Pump { handled: 0, peeking: false },
            PumpAction::Render,
        ),
        p.peeking ==> spec_pump_step(p, PumpEvent::Peeked(Peeked::Quit)).1 == PumpAction::Exit,
{
}

} // verus!
