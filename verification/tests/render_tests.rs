use liquid_glass::capture::{CaptureEvent, Captures, TextureDesc};
use liquid_glass::frame::plan_frame;
use liquid_glass::geometry::{Point, Rect};
use liquid_glass::render::{FrameAction, FrameEvent, FramePhase, FrameRun};

const LENS: Point = Point { x: 420, y: 280 };

fn desc() -> TextureDesc {
    TextureDesc {
        width: 1920,
        height: 1080,
        mip_levels: 1,
        array_size: 1,
        format: 87,
        sample_count: 1,
        sample_quality: 0,
        usage: 0,
        bind_flags: 0,
        cpu_access_flags: 0,
        misc_flags: 0,
    }
}

fn captures() -> Captures {
    let mut c = Captures::new();
    c.add_output(Rect { left: -1920, top: 0, right: 0, bottom: 1080 });
    c.add_output(Rect { left: 0, top: 0, right: 1920, bottom: 1080 });
    for i in 0..2 {
        c.step_output(i, CaptureEvent::Begin);
        c.step_output(i, CaptureEvent::FrameAcquired(Some(desc())));
        c.step_output(i, CaptureEvent::TextureCreated);
        c.step_output(i, CaptureEvent::ViewCreated);
        c.step_output(i, CaptureEvent::Copied);
        c.step_output(i, CaptureEvent::Released);
    }
    c
}

const WINDOW: Rect = Rect { left: -1920, top: 0, right: 1920, bottom: 1080 };

#[test]
fn frame_captures_reads_draws_presents() {
    let c = captures();
    let mut f = FrameRun::new(2);
    assert_eq!(f.step(FrameEvent::Begin), FrameAction::Capture(0));
    assert_eq!(f.step(FrameEvent::Captured), FrameAction::Capture(1));
    assert_eq!(f.step(FrameEvent::Captured), FrameAction::ReadWindow);
    let lens = Point { x: 100, y: 100 };
    let a = f.window_read(Some(WINDOW), c.outputs(), lens, LENS, 3840, 1080);
    assert_eq!(a, FrameAction::SetUpPipeline);
    let plan = plan_frame(c.outputs(), WINDOW, lens, LENS, 3840, 1080);
    assert_eq!(f.passes, plan);
    assert_eq!(f.step(FrameEvent::PipelineReady), FrameAction::MapConstants(plan[0]));
    assert_eq!(f.step(FrameEvent::Mapped(true)), FrameAction::Draw(plan[0]));
    assert_eq!(f.step(FrameEvent::Drawn), FrameAction::MapConstants(plan[1]));
    assert_eq!(f.step(FrameEvent::Mapped(true)), FrameAction::Draw(plan[1]));
    assert_eq!(f.step(FrameEvent::Drawn), FrameAction::Present);
    assert_eq!(f.step(FrameEvent::Presented), FrameAction::Finish);
    assert_eq!(f.phase, FramePhase::Done);
}

#[test]
fn failed_mapping_skips_the_pass() {
    let c = captures();
    let mut f = FrameRun::new(2);
    f.step(FrameEvent::Begin);
    f.step(FrameEvent::Captured);
    f.step(FrameEvent::Captured);
    f.window_read(Some(WINDOW), c.outputs(), Point { x: 0, y: 0 }, LENS, 3840, 1080);
    let first = f.passes[0];
    let second = f.passes[1];
    assert_eq!(f.step(FrameEvent::PipelineReady), FrameAction::MapConstants(first));
    assert_eq!(f.step(FrameEvent::Mapped(false)), FrameAction::MapConstants(second));
    assert_eq!(f.step(FrameEvent::Mapped(false)), FrameAction::Present);
}

#[test]
fn unreadable_window_ends_frame_without_present() {
    let c = captures();
    let mut f = FrameRun::new(2);
    f.step(FrameEvent::Begin);
    f.step(FrameEvent::Captured);
    f.step(FrameEvent::Captured);
    assert_eq!(f.window_read(None, c.outputs(), Point { x: 0, y: 0 }, LENS, 3840, 1080), FrameAction::Finish);
    assert_eq!(f.phase, FramePhase::Done);
    assert!(f.passes.is_empty());
}

#[test]
fn frame_without_outputs_or_passes() {
    let c = Captures::new();
    let mut f = FrameRun::new(0);
    assert_eq!(f.step(FrameEvent::Begin), FrameAction::ReadWindow);
    f.window_read(Some(WINDOW), c.outputs(), Point { x: 0, y: 0 }, LENS, 3840, 1080);
    assert_eq!(f.step(FrameEvent::PipelineReady), FrameAction::Present);
}

#[test]
fn passes_partition_the_window() {
    let c = captures();
    let plan = plan_frame(c.outputs(), WINDOW, Point { x: -200, y: 10 }, LENS, 3840, 1080);
    for x in [0, 1, 1919, 1920, 1921, 3839] {
        for y in [0, 500, 1079] {
            let count = plan
                .iter()
                .filter(|p| p.scissor.left <= x && x < p.scissor.right && p.scissor.top <= y && y < p.scissor.bottom)
                .count();
            assert_eq!(count, 1, "pixel ({}, {})", x, y);
        }
    }
}
