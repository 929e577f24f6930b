use liquid_glass::capture::{
    copy_target_desc, needs_new_texture, CaptureAction, CaptureError, CaptureEvent, CapturePhase,
    Captures, OutputCapture, TextureDesc, BIND_SHADER_RESOURCE, FIRST_FRAME_TIMEOUT_MS,
    USAGE_DEFAULT,
};
use liquid_glass::geometry::Rect;

const R: Rect = Rect { left: 0, top: 0, right: 1920, bottom: 1080 };

fn frame(width: u32, height: u32, format: i32) -> TextureDesc {
    TextureDesc {
        width,
        height,
        mip_levels: 1,
        array_size: 1,
        format,
        sample_count: 1,
        sample_quality: 0,
        usage: 3,
        bind_flags: 0x20,
        cpu_access_flags: 0x20000,
        misc_flags: 0x2,
    }
}

#[test]
fn copy_target_is_shader_readable() {
    let d = copy_target_desc(&frame(1920, 1080, 87));
    assert_eq!(
        d,
        TextureDesc {
            width: 1920,
            height: 1080,
            mip_levels: 1,
            array_size: 1,
            format: 87,
            sample_count: 1,
            sample_quality: 0,
            usage: USAGE_DEFAULT,
            bind_flags: BIND_SHADER_RESOURCE,
            cpu_access_flags: 0,
            misc_flags: 0,
        }
    );
    assert_eq!(BIND_SHADER_RESOURCE, 8);
    assert_eq!(USAGE_DEFAULT, 0);
}

#[test]
fn new_texture_only_for_other_shapes() {
    let f = frame(1920, 1080, 87);
    let t = Some(copy_target_desc(&f));
    assert!(needs_new_texture(&None, &f));
    assert!(!needs_new_texture(&t, &f));
    assert!(needs_new_texture(&t, &frame(2560, 1080, 87)));
    assert!(needs_new_texture(&t, &frame(1920, 1440, 87)));
    assert!(needs_new_texture(&t, &frame(1920, 1080, 10)));
}

#[test]
fn first_capture_creates_texture_and_view() {
    let mut o = OutputCapture::new(R);
    assert_eq!(o.step(CaptureEvent::Begin), CaptureAction::Acquire { timeout_ms: FIRST_FRAME_TIMEOUT_MS });
    assert_eq!(FIRST_FRAME_TIMEOUT_MS, 100);
    let f = frame(1920, 1080, 87);
    let d = copy_target_desc(&f);
    assert_eq!(o.step(CaptureEvent::FrameAcquired(Some(f))), CaptureAction::CreateTexture(d));
    assert_eq!(o.step(CaptureEvent::TextureCreated), CaptureAction::CreateView);
    assert_eq!(o.texture, Some(d));
    assert_eq!(o.step(CaptureEvent::ViewCreated), CaptureAction::CopyFrame);
    assert!(o.has_view);
    assert_eq!(o.step(CaptureEvent::Copied), CaptureAction::ReleaseFrame);
    assert_eq!(o.step(CaptureEvent::Released), CaptureAction::Done);
    assert_eq!(o.phase, CapturePhase::Idle);
    // The next capture does not wait and reuses the texture.
    assert_eq!(o.step(CaptureEvent::Begin), CaptureAction::Acquire { timeout_ms: 0 });
    assert_eq!(o.step(CaptureEvent::FrameAcquired(Some(f))), CaptureAction::CopyFrame);
}

#[test]
fn no_frame_ends_without_release() {
    let mut o = OutputCapture::new(R);
    o.step(CaptureEvent::Begin);
    assert_eq!(o.step(CaptureEvent::AcquireFailed), CaptureAction::Done);
    assert_eq!(o.phase, CapturePhase::Idle);
    assert_eq!(o.texture, None);
}

#[test]
fn frame_without_texture_is_released() {
    let mut o = OutputCapture::new(R);
    o.step(CaptureEvent::Begin);
    assert_eq!(o.step(CaptureEvent::FrameAcquired(None)), CaptureAction::ReleaseFrame);
    assert_eq!(o.step(CaptureEvent::Released), CaptureAction::Done);
}

#[test]
fn failed_texture_without_old_one_releases() {
    let mut o = OutputCapture::new(R);
    o.step(CaptureEvent::Begin);
    o.step(CaptureEvent::FrameAcquired(Some(frame(800, 600, 87))));
    assert_eq!(o.step(CaptureEvent::TextureFailed), CaptureAction::ReleaseFrame);
    assert_eq!(o.texture, None);
    assert!(!o.has_view);
}

#[test]
fn failed_texture_keeps_old_one_and_copies() {
    let mut o = OutputCapture::new(R);
    let f = frame(800, 600, 87);
    o.step(CaptureEvent::Begin);
    o.step(CaptureEvent::FrameAcquired(Some(f)));
    o.step(CaptureEvent::TextureCreated);
    o.step(CaptureEvent::ViewCreated);
    o.step(CaptureEvent::Copied);
    o.step(CaptureEvent::Released);
    // The output changes resolution; the new texture cannot be created.
    o.step(CaptureEvent::Begin);
    let g = frame(1024, 768, 87);
    assert_eq!(o.step(CaptureEvent::FrameAcquired(Some(g))), CaptureAction::CreateTexture(copy_target_desc(&g)));
    assert_eq!(o.step(CaptureEvent::TextureFailed), CaptureAction::CopyFrame);
    assert_eq!(o.texture, Some(copy_target_desc(&f)));
    assert!(o.has_view);
}

#[test]
fn failed_view_still_copies() {
    let mut o = OutputCapture::new(R);
    o.step(CaptureEvent::Begin);
    o.step(CaptureEvent::FrameAcquired(Some(frame(800, 600, 87))));
    o.step(CaptureEvent::TextureCreated);
    assert_eq!(o.step(CaptureEvent::ViewFailed), CaptureAction::CopyFrame);
    assert!(!o.has_view);
    assert!(o.texture.is_some());
}

#[test]
fn enumeration_needs_an_output() {
    let mut c = Captures::new();
    assert_eq!(c.len(), 0);
    assert_eq!(c.finish_enumeration(), Err(CaptureError::NoOutputs));
    c.add_output(R);
    c.add_output(Rect { left: -1280, top: 0, right: 0, bottom: 1024 });
    assert_eq!(c.len(), 2);
    assert_eq!(c.finish_enumeration(), Ok(()));
    assert_eq!(c.outputs()[1].rect, Rect { left: -1280, top: 0, right: 0, bottom: 1024 });
    assert_eq!(c.outputs()[0], OutputCapture::new(R));
}

#[test]
fn step_output_touches_only_that_output() {
    let mut c = Captures::new();
    c.add_output(R);
    c.add_output(R);
    assert_eq!(c.step_output(1, CaptureEvent::Begin), CaptureAction::Acquire { timeout_ms: 100 });
    assert_eq!(c.outputs()[1].phase, CapturePhase::Acquiring);
    assert_eq!(c.outputs()[0].phase, CapturePhase::Idle);
}

#[test]
fn texture_and_view_survive_later_failures() {
    let mut o = OutputCapture::new(R);
    let f = frame(800, 600, 87);
    for e in [CaptureEvent::Begin, CaptureEvent::FrameAcquired(Some(f)), CaptureEvent::TextureCreated, CaptureEvent::ViewCreated, CaptureEvent::Copied, CaptureEvent::Released] {
        o.step(e);
    }
    let g = frame(1024, 768, 87);
    for e in [CaptureEvent::Begin, CaptureEvent::AcquireFailed, CaptureEvent::Begin, CaptureEvent::FrameAcquired(Some(g)), CaptureEvent::TextureCreated, CaptureEvent::ViewFailed, CaptureEvent::Copied, CaptureEvent::Released] {
        o.step(e);
        assert!(o.texture.is_some());
        assert!(o.has_view);
    }
    assert_eq!(o.texture, Some(copy_target_desc(&g)));
}
