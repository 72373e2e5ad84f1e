use kaku_window::windows::gl::{
    core_context_attribs, pixel_format_request, DcRelease, GLContext, GlCall, GlError, GlFailure,
    GlResult, GlSetup, GlStep,
};

fn next(step: GlStep) -> GlSetup {
    match step {
        GlStep::Next(s) => s,
        _ => panic!("the set-up should go on"),
    }
}

fn failed(step: GlStep) -> GlFailure {
    match step {
        GlStep::Failed(f) => f,
        _ => panic!("the set-up should fail"),
    }
}

fn ready_context() -> GLContext {
    let s = GlSetup::start(7);
    let s = next(s.advance(GlResult::Dc(11)));
    let s = next(s.advance(GlResult::PixelFormatChosen(3)));
    let s = next(s.advance(GlResult::PixelFormatSet(1)));
    let s = next(s.advance(GlResult::ContextCreated(13)));
    match s.advance(GlResult::MadeCurrent(1)) {
        GlStep::Ready(c) => c,
        _ => panic!("the set-up should be ready"),
    }
}

#[test]
fn successful_setup_walks_every_call() {
    let s = GlSetup::start(7);
    assert_eq!(s.awaiting(), GlCall::GetDc);
    let s = next(s.advance(GlResult::Dc(11)));
    assert_eq!(s.awaiting(), GlCall::ChoosePixelFormat);
    assert_eq!(s.hdc(), 11);
    let s = next(s.advance(GlResult::PixelFormatChosen(3)));
    assert_eq!(s.awaiting(), GlCall::SetPixelFormat);
    assert_eq!(s.pixel_format(), 3);
    let s = next(s.advance(GlResult::PixelFormatSet(1)));
    assert_eq!(s.awaiting(), GlCall::CreateContext);
    let s = next(s.advance(GlResult::ContextCreated(13)));
    assert_eq!(s.awaiting(), GlCall::MakeCurrent);
    assert_eq!(s.hglrc(), 13);
    let c = ready_context();
    assert_eq!((c.hwnd(), c.hdc(), c.hglrc()), (7, 11, 13));
}

#[test]
fn failures_give_back_what_was_acquired() {
    let f = failed(GlSetup::start(7).advance(GlResult::Dc(0)));
    assert_eq!(f, GlFailure { error: GlError::GetDcFailed, release_dc: None, delete_context: None });
    assert_eq!(f.error.message(), "Failed to get device context");

    let s = next(GlSetup::start(7).advance(GlResult::Dc(11)));
    let f = failed(s.advance(GlResult::PixelFormatChosen(0)));
    let release = Some(DcRelease { hwnd: 7, hdc: 11 });
    assert_eq!(f, GlFailure { error: GlError::ChoosePixelFormatFailed, release_dc: release, delete_context: None });

    let s = next(next(GlSetup::start(7).advance(GlResult::Dc(11))).advance(GlResult::PixelFormatChosen(3)));
    let f = failed(s.advance(GlResult::PixelFormatSet(0)));
    assert_eq!(f, GlFailure { error: GlError::SetPixelFormatFailed, release_dc: release, delete_context: None });

    let s = next(next(next(GlSetup::start(7).advance(GlResult::Dc(11))).advance(GlResult::PixelFormatChosen(3))).advance(GlResult::PixelFormatSet(1)));
    let f = failed(s.advance(GlResult::ContextCreated(0)));
    assert_eq!(f, GlFailure { error: GlError::CreateContextFailed, release_dc: release, delete_context: None });

    let s = next(next(next(next(GlSetup::start(7).advance(GlResult::Dc(11))).advance(GlResult::PixelFormatChosen(3))).advance(GlResult::PixelFormatSet(1))).advance(GlResult::ContextCreated(13)));
    let f = failed(s.advance(GlResult::MadeCurrent(0)));
    assert_eq!(f, GlFailure { error: GlError::MakeCurrentFailed, release_dc: release, delete_context: Some(13) });
    assert_eq!(f.error.message(), "Failed to make OpenGL context current");
}

#[test]
fn unexpected_result_fails_and_gives_back() {
    let f = failed(GlSetup::start(7).advance(GlResult::MadeCurrent(1)));
    assert_eq!(f, GlFailure { error: GlError::UnexpectedResult, release_dc: None, delete_context: None });
    let s = next(GlSetup::start(7).advance(GlResult::Dc(11)));
    let f = failed(s.advance(GlResult::Dc(12)));
    assert_eq!(f.release_dc, Some(DcRelease { hwnd: 7, hdc: 11 }));
    assert_eq!(f.error, GlError::UnexpectedResult);
}

#[test]
fn error_messages() {
    assert_eq!(GlError::ChoosePixelFormatFailed.message(), "Failed to choose pixel format");
    assert_eq!(GlError::SetPixelFormatFailed.message(), "Failed to set pixel format");
    assert_eq!(GlError::CreateContextFailed.message(), "Failed to create OpenGL context");
}

#[test]
fn core_context_choice() {
    let dummy = ready_context();
    let kept = GLContext::new_core(&dummy, 0);
    assert_eq!(kept.retired, None);
    assert!(kept.core.is_none());
    let core = GLContext::new_core(&dummy, 99);
    assert_eq!(core.retired, Some(13));
    let c = core.core.expect("a core context");
    assert_eq!((c.hwnd(), c.hdc(), c.hglrc()), (7, 11, 99));
}

#[test]
fn context_helpers() {
    let c = ready_context();
    assert_eq!(c.make_current(0), Err(GlError::MakeCurrentFailed));
    assert_eq!(c.make_current(1), Ok(()));
    assert_eq!(c.set_vsync(0, true), None);
    assert_eq!(c.set_vsync(0x1000, true), Some(1));
    assert_eq!(c.set_vsync(0x1000, false), Some(0));
    assert_eq!(core_context_attribs(3, 2), [0x2091, 3, 0x2092, 2, 0]);
    let p = pixel_format_request();
    assert_eq!(p.flags, 0x25);
    assert_eq!((p.version, p.pixel_type, p.color_bits, p.depth_bits, p.stencil_bits, p.layer_type), (1, 0, 32, 24, 8, 0));
}
