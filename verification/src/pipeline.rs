//! The render pipeline: initialize the panel, clear it, compose the frame and
//! send it, once, stopping at the first failure.

use crate::composer::{compose, Scene, BLACK};
use crate::display::{DisplayCommand, DisplaySession, DisplayState, SessionModel};
use crate::frame::PixelBuffer;
use vstd::prelude::*;

verus! {

/// The stage at which a render failed.
#[derive(Clone, Copy, Debug, PartialEq, Eq, Structural)]
pub enum RenderError {
    InitFailed,
    ClearFailed,
    TransferFailed,
}

/// Where a pipeline stands.
#[derive(Clone, Copy, Debug, PartialEq, Eq, Structural)]
pub enum Stage {
    /// Not started.
    Idle,
    /// The panel is being initialized.
    Initializing,
    /// The panel is being cleared.
    Clearing,
    /// The composed frame is being sent.
    Transferring,
    /// The frame was sent.
    Done,
    /// The render was given up.
    Failed(RenderError),
}

/// What the pipeline asks of its caller.
#[derive(Clone, Copy, Debug, PartialEq, Eq)]
pub enum RenderAction {
    /// Perform this operation on the panel and report how it went.
    Perform(DisplayCommand),
    /// Nothing more: the render ended like this.
    Finished(Result<(), RenderError>),
}

/// How the panel answers during one render, stage by stage.
#[derive(Clone, Copy, Debug, PartialEq, Eq, Structural)]
pub struct PanelScript {
    pub init_ok: bool,
    pub clear_ok: bool,
    pub transfer_ok: bool,
}

/// A black frame.
pub open spec fn blank_frame() -> Seq<u8> {
    Seq::new(25600, |i: int| 0u8)
}

/// The action that goes with `stage`.
pub open spec fn action_at(stage: Stage) -> RenderAction {
    match stage {
        Stage::Idle | Stage::Initializing => RenderAction::Perform(DisplayCommand::Init),
        Stage::Clearing => RenderAction::Perform(DisplayCommand::Clear { color: BLACK }),
        Stage::Transferring => RenderAction::Perform(DisplayCommand::WriteFrame),
        Stage::Done => RenderAction::Finished(Ok(())),
        Stage::Failed(e) => RenderAction::Finished(Err(e)),
    }
}

/// The stage after the operation of `stage` ended, well or badly. A stage
/// with no operation under way stays as it is: nothing is tried twice.
pub open spec fn stage_after(stage: Stage, ok: bool) -> Stage {
    match stage {
        Stage::Initializing => if ok {
            Stage::Clearing
        } else {
            Stage::Failed(RenderError::InitFailed)
        },
        Stage::Clearing => if ok {
            Stage::Transferring
        } else {
            Stage::Failed(RenderError::ClearFailed)
        },
        Stage::Transferring => if ok {
            Stage::Done
        } else {
            Stage::Failed(RenderError::TransferFailed)
        },
        _ => stage,
    }
}

/// The session that goes with `stage` of a pipeline that is under way.
pub open spec fn session_at(stage: Stage) -> SessionModel {
    match stage {
        Stage::Initializing => SessionModel {
            state: DisplayState::Initializing,
            pending: Some(DisplayCommand::Init),
        },
        Stage::Clearing => SessionModel {
            state: DisplayState::Ready,
            pending: Some(DisplayCommand::Clear { color: BLACK }),
        },
        Stage::Transferring => SessionModel {
            state: DisplayState::Ready,
            pending: Some(DisplayCommand::WriteFrame),
        },
        Stage::Done => SessionModel { state: DisplayState::Ready, pending: None },
        _ => SessionModel { state: DisplayState::Error, pending: None },
    }
}

/// How a render ends on a session that accepts `Init` or not, with a panel
/// that answers as `script` says: with the error of the first stage that
/// fails.
pub open spec fn scripted_result(accepts_init: bool, script: PanelScript) -> Result<
    (),
    RenderError,
> {
    if !accepts_init || !script.init_ok {
        Err(RenderError::InitFailed)
    } else if !script.clear_ok {
        Err(RenderError::ClearFailed)
    } else if !script.transfer_ok {
        Err(RenderError::TransferFailed)
    } else {
        Ok(())
    }
}

/// One render of one scene on one display session.
pub struct RenderPipeline {
    stage: Stage,
    session: DisplaySession,
    scene: Scene,
    frame: PixelBuffer,
}

impl RenderPipeline {
    /// The pipeline's stage.
    pub closed spec fn spec_stage(&self) -> Stage {
        self.stage
    }

    /// The pipeline's display session.
    pub closed spec fn spec_session(&self) -> SessionModel {
        self.session@
    }

    /// The scene the pipeline renders.
    pub closed spec fn scene(&self) -> Scene {
        self.scene
    }

    /// The bytes of the pipeline's frame.
    pub closed spec fn spec_frame(&self) -> Seq<u8> {
        self.frame@
    }

    /// What holds of every pipeline: the session is in the state that the
    /// stage left it in, and the frame is black until the panel was cleared
    /// and the composed scene from then on.
    pub open spec fn wf(&self) -> bool {
        &&& self.spec_session().wf()
        &&& self.spec_stage() != Stage::Idle && !(self.spec_stage() matches Stage::Failed(
            RenderError::InitFailed,
        )) ==> self.spec_session() == session_at(self.spec_stage())
        &&& self.spec_frame() == if self.spec_stage() == Stage::Transferring || self.spec_stage()
            == Stage::Done || self.spec_stage() == Stage::Failed(RenderError::TransferFailed) {
            self.scene().onto(blank_frame())
        } else {
            blank_frame()
        }
    }

    /// A pipeline that has not started.
    pub fn new(session: DisplaySession, scene: Scene) -> (pipeline: RenderPipeline)
        ensures
            pipeline.wf(),
            pipeline.spec_stage() == Stage::Idle,
            pipeline.spec_session() == session@,
            pipeline.scene() == scene,
    {
        let state = session.state();
        let frame = PixelBuffer::new();
        assert(frame@ =~= blank_frame());
        RenderPipeline { stage: Stage::Idle, session, scene, frame }
    }

    /// The pipeline's stage.
    #[verifier::when_used_as_spec(spec_stage)]
    pub fn stage(&self) -> (stage: Stage)
        ensures
            stage == self.spec_stage(),
    {
        self.stage
    }

    /// The pipeline's display session.
    pub fn session(&self) -> (session: &DisplaySession)
        ensures
            session@ == self.spec_session(),
    {
        &self.session
    }

    /// The pipeline's frame: black until the panel was cleared, the composed
    /// scene from then on.
    pub fn frame(&self) -> (frame: &PixelBuffer)
        ensures
            frame@ == self.spec_frame(),
    {
        &self.frame
    }

    /// How the render ended, or `None` while it has not.
    pub fn result(&self) -> (result: Option<Result<(), RenderError>>)
        ensures
            result == match self.spec_stage() {
                Stage::Done => Some(Ok::<(), RenderError>(())),
                Stage::Failed(e) => Some(Err::<(), RenderError>(e)),
                _ => None,
            },
    {
        match self.stage {
            Stage::Done => Some(Ok(())),
            Stage::Failed(e) => Some(Err(e)),
            _ => None,
        }
    }

    /// Starts the render: asks for the panel to be initialized, or gives up
    /// with `InitFailed` if the session cannot be initialized. A pipeline
    /// that was started before only repeats what it is waiting for or how it
    /// ended.
    pub fn start(&mut self) -> (action: RenderAction)
        requires
            old(self).wf(),
        ensures
            final(self).wf(),
            final(self).scene() == old(self).scene(),
            old(self).spec_stage() != Stage::Idle ==> final(self).spec_stage() == old(self).spec_stage() && final(self).spec_session() == old(self).spec_session(),
            old(self).spec_stage() == Stage::Idle && old(self).spec_session().accepts(
                DisplayCommand::Init,
            ) ==> final(self).spec_stage() == Stage::Initializing,
            old(self).spec_stage() == Stage::Idle && !old(self).spec_session().accepts(
                DisplayCommand::Init,
            ) ==> final(self).spec_stage() == Stage::Failed(RenderError::InitFailed) && final(self).spec_session() == old(self).spec_session(),
            action == action_at(final(self).spec_stage()),
    {
        match self.stage {
            Stage::Idle => {
                match self.session.begin(DisplayCommand::Init) {
                    Ok(()) => {
                        self.stage = Stage::Initializing;
                        RenderAction::Perform(DisplayCommand::Init)
                    },
                    Err(_) => {
                        self.stage = Stage::Failed(RenderError::InitFailed);
                        RenderAction::Finished(Err(RenderError::InitFailed))
                    },
                }
            },
            Stage::Initializing => RenderAction::Perform(DisplayCommand::Init),
            Stage::Clearing => RenderAction::Perform(DisplayCommand::Clear { color: BLACK }),
            Stage::Transferring => RenderAction::Perform(DisplayCommand::WriteFrame),
            Stage::Done => RenderAction::Finished(Ok(())),
            Stage::Failed(e) => RenderAction::Finished(Err(e)),
        }
    }

    /// Takes the outcome of the operation asked for last and says what comes
    /// next. A failure ends the render with the error of its stage and
    /// leaves the session in `Error`; nothing is retried. After a successful
    /// clear the scene is composed onto the black frame, which cannot fail,
    /// and the frame is offered for transfer.
    pub fn report(&mut self, ok: bool) -> (action: RenderAction)
        requires
            old(self).wf(),
        ensures
            final(self).wf(),
            final(self).scene() == old(self).scene(),
            final(self).spec_stage() == stage_after(old(self).spec_stage(), ok),
            final(self).spec_stage() == old(self).spec_stage() ==> final(self).spec_session()
                == old(self).spec_session(),
            final(self).spec_stage() != old(self).spec_stage() && !ok ==> final(self).spec_session() == (SessionModel { state: DisplayState::Error, pending: None }),
            action == action_at(final(self).spec_stage()),
    {
        match self.stage {
            Stage::Initializing => {
                match self.session.complete(ok) {
                    Ok(()) => {
                        let issued = self.session.begin(DisplayCommand::Clear { color: BLACK });
                        self.stage = Stage::Clearing;
                        RenderAction::Perform(DisplayCommand::Clear { color: BLACK })
                    },
                    Err(_) => {
                        self.stage = Stage::Failed(RenderError::InitFailed);
                        RenderAction::Finished(Err(RenderError::InitFailed))
                    },
                }
            },
            Stage::Clearing => {
                match self.session.complete(ok) {
                    Ok(()) => {
                        compose(&mut self.frame, &self.scene);
                        let issued = self.session.begin(DisplayCommand::WriteFrame);
                        self.stage = Stage::Transferring;
                        RenderAction::Perform(DisplayCommand::WriteFrame)
                    },
                    Err(_) => {
                        self.stage = Stage::Failed(RenderError::ClearFailed);
                        RenderAction::Finished(Err(RenderError::ClearFailed))
                    },
                }
            },
            Stage::Transferring => {
                match self.session.complete(ok) {
                    Ok(()) => {
                        self.stage = Stage::Done;
                        RenderAction::Finished(Ok(()))
                    },
                    Err(_) => {
                        self.stage = Stage::Failed(RenderError::TransferFailed);
                        RenderAction::Finished(Err(RenderError::TransferFailed))
                    },
                }
            },
            Stage::Idle => RenderAction::Perform(DisplayCommand::Init),
            Stage::Done => RenderAction::Finished(Ok(())),
            Stage::Failed(e) => RenderAction::Finished(Err(e)),
        }
    }
}

/// Renders `scene` on `session` against a panel that answers as `script`
/// says, and hands back the pipeline as the render left it.
pub fn run(session: DisplaySession, scene: Scene, script: PanelScript) -> (pipeline: RenderPipeline)
    ensures
        pipeline.wf(),
        pipeline.scene() == scene,
        pipeline.spec_stage() == match scripted_result(
            session@.accepts(DisplayCommand::Init),
            script,
        ) {
            Ok(()) => Stage::Done,
            Err(e) => Stage::Failed(e),
        },
        !session@.accepts(DisplayCommand::Init) ==> pipeline.spec_session() == session@,
        session@.accepts(DisplayCommand::Init) && !script.init_ok ==> pipeline.spec_session() == (
        SessionModel { state: DisplayState::Error, pending: None }),
{
    let mut pipeline = RenderPipeline::new(session, scene);
    let first = pipeline.start();
    if let RenderAction::Perform(_) = first {
        let second = pipeline.report(script.init_ok);
        if let RenderAction::Perform(_) = second {
            let third = pipeline.report(script.clear_ok);
            if let RenderAction::Perform(_) = third {
                let last = pipeline.report(script.transfer_ok);
            }
        }
    }
    pipeline
}

/// A pipeline that has ended stays ended: no report moves it, so a render
/// runs once and a failure is never retried.
pub proof fn lemma_ended_stays_ended(stage: Stage, ok: bool)
    requires
        stage == Stage::Done || stage is Failed,
    ensures
        stage_after(stage, ok) == stage,
        action_at(stage) is Finished,
{
}

/// A render succeeds exactly if the session could be initialized and the
/// panel answered well at every stage; else its error names the first stage
/// that failed.
pub proof fn lemma_first_failure_decides(accepts_init: bool, script: PanelScript)
    ensures
        scripted_result(accepts_init, script).is_ok() <==> accepts_init && script.init_ok
            && script.clear_ok && script.transfer_ok,
        scripted_result(accepts_init, script) == Err::<(), RenderError>(RenderError::InitFailed)
            <==> !(accepts_init && script.init_ok),
        scripted_result(accepts_init, script) == Err::<(), RenderError>(RenderError::ClearFailed)
            <==> accepts_init && script.init_ok && !script.clear_ok,
        scripted_result(accepts_init, script) == Err::<(), RenderError>(
            RenderError::TransferFailed,
        ) <==> accepts_init && script.init_ok && script.clear_ok && !script.transfer_ok,
{
}

} // verus!
