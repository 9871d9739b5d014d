use render_supervisor::assets::{Label, RawImage};
use render_supervisor::composer::{compose_frame, Scene};
use render_supervisor::display::{DisplayCommand, DisplayError, DisplaySession, DisplayState};
use render_supervisor::pipeline::{
    run, PanelScript, RenderAction, RenderError, RenderPipeline, Stage,
};

fn scene() -> Scene {
    let image = RawImage::from_bytes(vec![0x55; 128 * 64]).unwrap();
    Scene::centered(image, Label::new("Hello Rust!").unwrap())
}

fn ready_session() -> DisplaySession {
    let mut s = DisplaySession::new();
    s.begin(DisplayCommand::Init).unwrap();
    s.complete(true).unwrap();
    s
}

#[test]
fn session_initializes_to_ready() {
    let mut s = DisplaySession::new();
    assert_eq!(s.state(), DisplayState::Uninitialized);
    assert_eq!(s.pending(), None);
    assert_eq!(s.begin(DisplayCommand::Clear { color: 0 }), Err(DisplayError::InvalidState));
    assert_eq!(s.begin(DisplayCommand::WriteFrame), Err(DisplayError::InvalidState));
    assert_eq!(s.complete(true), Err(DisplayError::InvalidState));
    assert_eq!(s.state(), DisplayState::Uninitialized);
    assert_eq!(s.begin(DisplayCommand::Init), Ok(()));
    assert_eq!(s.state(), DisplayState::Initializing);
    assert_eq!(s.pending(), Some(DisplayCommand::Init));
    assert_eq!(s.begin(DisplayCommand::Init), Err(DisplayError::InvalidState));
    assert_eq!(s.begin(DisplayCommand::WriteFrame), Err(DisplayError::InvalidState));
    assert_eq!(s.complete(true), Ok(()));
    assert_eq!(s.state(), DisplayState::Ready);
    assert_eq!(s.pending(), None);
}

#[test]
fn session_init_failure_is_final() {
    let mut s = DisplaySession::new();
    s.begin(DisplayCommand::Init).unwrap();
    assert_eq!(s.complete(false), Err(DisplayError::Transport));
    assert_eq!(s.state(), DisplayState::Error);
    for c in [DisplayCommand::Init, DisplayCommand::Clear { color: 1 }, DisplayCommand::WriteFrame] {
        assert_eq!(s.begin(c), Err(DisplayError::InvalidState));
    }
    assert_eq!(s.complete(true), Err(DisplayError::InvalidState));
    assert_eq!(s.state(), DisplayState::Error);
}

#[test]
fn ready_session_clears_and_writes_one_at_a_time() {
    let mut s = ready_session();
    assert_eq!(s.begin(DisplayCommand::Init), Err(DisplayError::InvalidState));
    assert_eq!(s.begin(DisplayCommand::Clear { color: 0x1234 }), Ok(()));
    assert_eq!(s.state(), DisplayState::Ready);
    assert_eq!(s.pending(), Some(DisplayCommand::Clear { color: 0x1234 }));
    assert_eq!(s.begin(DisplayCommand::WriteFrame), Err(DisplayError::InvalidState));
    assert_eq!(s.complete(true), Ok(()));
    assert_eq!(s.begin(DisplayCommand::WriteFrame), Ok(()));
    assert_eq!(s.complete(false), Err(DisplayError::Transport));
    assert_eq!(s.state(), DisplayState::Error);
    assert_eq!(s.begin(DisplayCommand::Clear { color: 0 }), Err(DisplayError::InvalidState));
}

#[test]
fn pipeline_runs_the_four_stages() {
    let mut p = RenderPipeline::new(DisplaySession::new(), scene());
    assert_eq!(p.stage(), Stage::Idle);
    assert_eq!(p.result(), None);
    assert!(p.frame().as_bytes().iter().all(|&b| b == 0));
    assert_eq!(p.start(), RenderAction::Perform(DisplayCommand::Init));
    assert_eq!(p.stage(), Stage::Initializing);
    assert_eq!(p.start(), RenderAction::Perform(DisplayCommand::Init));
    assert_eq!(p.report(true), RenderAction::Perform(DisplayCommand::Clear { color: 0 }));
    assert_eq!(p.stage(), Stage::Clearing);
    assert!(p.frame().as_bytes().iter().all(|&b| b == 0));
    assert_eq!(p.report(true), RenderAction::Perform(DisplayCommand::WriteFrame));
    assert_eq!(p.stage(), Stage::Transferring);
    assert_eq!(p.session().pending(), Some(DisplayCommand::WriteFrame));
    assert_eq!(p.frame().as_bytes(), compose_frame(&scene()).as_bytes());
    assert_eq!(p.result(), None);
    assert_eq!(p.report(true), RenderAction::Finished(Ok(())));
    assert_eq!(p.stage(), Stage::Done);
    assert_eq!(p.result(), Some(Ok(())));
    assert_eq!(p.session().state(), DisplayState::Ready);
    assert_eq!(p.report(false), RenderAction::Finished(Ok(())));
    assert_eq!(p.start(), RenderAction::Finished(Ok(())));
    assert_eq!(p.frame().as_bytes(), compose_frame(&scene()).as_bytes());
}

#[test]
fn pipeline_stops_at_the_first_failure() {
    let cases = [
        (false, true, true, RenderError::InitFailed),
        (false, false, false, RenderError::InitFailed),
        (true, false, true, RenderError::ClearFailed),
        (true, false, false, RenderError::ClearFailed),
        (true, true, false, RenderError::TransferFailed),
    ];
    for (init_ok, clear_ok, transfer_ok, want) in cases {
        let p = run(DisplaySession::new(), scene(), PanelScript { init_ok, clear_ok, transfer_ok });
        assert_eq!(p.result(), Some(Err(want)));
        assert_eq!(p.stage(), Stage::Failed(want));
        assert_eq!(p.session().state(), DisplayState::Error);
        let composed = want == RenderError::TransferFailed;
        assert_eq!(p.frame().as_bytes() == compose_frame(&scene()).as_bytes(), composed);
        assert_eq!(p.frame().as_bytes().iter().all(|&b| b == 0), !composed);
    }
}

#[test]
fn pipeline_success_sends_the_composed_frame() {
    let p = run(
        DisplaySession::new(),
        scene(),
        PanelScript { init_ok: true, clear_ok: true, transfer_ok: true },
    );
    assert_eq!(p.result(), Some(Ok(())));
    assert_eq!(p.session().state(), DisplayState::Ready);
    assert_eq!(p.session().pending(), None);
    assert_eq!(p.frame().as_bytes(), compose_frame(&scene()).as_bytes());
    assert_eq!(p.frame().pixel(0, 0), Some(0xF800));
}

#[test]
fn pipeline_on_a_used_session_fails_at_init() {
    let all_ok = PanelScript { init_ok: true, clear_ok: true, transfer_ok: true };
    let p = run(ready_session(), scene(), all_ok);
    assert_eq!(p.result(), Some(Err(RenderError::InitFailed)));
    assert_eq!(p.session().state(), DisplayState::Ready);
    let mut failed = DisplaySession::new();
    failed.begin(DisplayCommand::Init).unwrap();
    let _ = failed.complete(false);
    let mut p = RenderPipeline::new(failed, scene());
    assert_eq!(p.start(), RenderAction::Finished(Err(RenderError::InitFailed)));
    assert_eq!(p.report(true), RenderAction::Finished(Err(RenderError::InitFailed)));
    assert_eq!(p.session().state(), DisplayState::Error);
}

#[test]
fn failed_pipeline_is_never_retried() {
    let mut p = RenderPipeline::new(DisplaySession::new(), scene());
    p.start();
    assert_eq!(p.report(false), RenderAction::Finished(Err(RenderError::InitFailed)));
    for ok in [true, false, true] {
        assert_eq!(p.report(ok), RenderAction::Finished(Err(RenderError::InitFailed)));
        assert_eq!(p.start(), RenderAction::Finished(Err(RenderError::InitFailed)));
        assert_eq!(p.stage(), Stage::Failed(RenderError::InitFailed));
    }
}
