use liquid_glass::overlay::{overlay_action, OverlayAction, OverlayEvent};
use liquid_glass::pump::{Peeked, Pump, PumpAction, PumpEvent, MESSAGES_PER_FRAME};

#[test]
fn overlay_answers() {
    assert_eq!(overlay_action(OverlayEvent::HitTest), OverlayAction::Transparent);
    assert_eq!(overlay_action(OverlayEvent::HotKey), OverlayAction::DestroyWindow);
    assert_eq!(overlay_action(OverlayEvent::Destroy), OverlayAction::Quit);
    assert_eq!(overlay_action(OverlayEvent::Other), OverlayAction::PassToDefault);
}

#[test]
fn empty_queue_renders() {
    let mut p = Pump::new();
    assert_eq!(p.step(PumpEvent::Ready), PumpAction::Peek);
    assert_eq!(p.step(PumpEvent::Peeked(Peeked::Nothing)), PumpAction::Render);
    assert_eq!(p.handled, 0);
}

#[test]
fn at_most_a_frame_of_messages_between_renders() {
    assert_eq!(MESSAGES_PER_FRAME, 32);
    let mut p = Pump::new();
    let mut dispatched = 0;
    loop {
        match p.step(PumpEvent::Ready) {
            PumpAction::Peek => {
                assert_eq!(p.step(PumpEvent::Peeked(Peeked::Message)), PumpAction::Dispatch);
                dispatched += 1;
            }
            PumpAction::Render => break,
            other => panic!("unexpected {:?}", other),
        }
    }
    assert_eq!(dispatched, 32);
    assert_eq!(p.handled, 0);
    // The next frame may handle messages again.
    assert_eq!(p.step(PumpEvent::Ready), PumpAction::Peek);
}

#[test]
fn quit_exits() {
    let mut p = Pump::new();
    p.step(PumpEvent::Ready);
    p.step(PumpEvent::Peeked(Peeked::Message));
    assert_eq!(p.step(PumpEvent::Ready), PumpAction::Peek);
    assert_eq!(p.step(PumpEvent::Peeked(Peeked::Quit)), PumpAction::Exit);
}
