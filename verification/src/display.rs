//! The display session: which panel operation may be issued in which state,
//! and what state its outcome leaves.

use vstd::prelude::*;

verus! {

/// State of a display session. `Error` is final.
#[derive(Clone, Copy, Debug, PartialEq, Eq, Structural)]
pub enum DisplayState {
    Uninitialized,
    Initializing,
    Ready,
    Error,
}

/// An operation on the panel. The caller performs each as bus transactions
/// of its own and reports how it went.
#[derive(Clone, Copy, Debug, PartialEq, Eq, Structural)]
pub enum DisplayCommand {
    /// Reset and configure the controller.
    Init,
    /// Fill the controller's memory with one colour.
    Clear { color: u16 },
    /// Stream a whole frame to the controller by DMA.
    WriteFrame,
}

/// Why a session operation failed.
#[derive(Clone, Copy, Debug, PartialEq, Eq, Structural)]
pub enum DisplayError {
    /// The session's state does not allow the operation.
    InvalidState,
    /// The hardware reported a failure; the session is in `Error` now.
    Transport,
}

/// A session as plain data: its state and the operation under way, if any.
pub struct SessionModel {
    pub state: DisplayState,
    pub pending: Option<DisplayCommand>,
}

impl SessionModel {
    /// What holds of every session: exactly while it initializes, `Init` is
    /// under way, and nothing is ever under way before initialization or
    /// after a failure.
    pub open spec fn wf(self) -> bool {
        match self.state {
            DisplayState::Uninitialized => self.pending.is_none(),
            DisplayState::Initializing => self.pending == Some(DisplayCommand::Init),
            DisplayState::Ready => self.pending != Some(DisplayCommand::Init),
            DisplayState::Error => self.pending.is_none(),
        }
    }

    /// Whether `command` may be issued now: `Init` on a session that was
    /// never initialized, the others on a ready session with nothing under
    /// way.
    pub open spec fn accepts(self, command: DisplayCommand) -> bool {
        match command {
            DisplayCommand::Init => self.state == DisplayState::Uninitialized,
            _ => self.state == DisplayState::Ready && self.pending.is_none(),
        }
    }

    /// The session once `command` was issued.
    pub open spec fn begun(self, command: DisplayCommand) -> SessionModel {
        match command {
            DisplayCommand::Init => SessionModel {
                state: DisplayState::Initializing,
                pending: Some(command),
            },
            _ => SessionModel { state: DisplayState::Ready, pending: Some(command) },
        }
    }

    /// The session once the operation under way ended, well or badly.
    pub open spec fn completed(self, ok: bool) -> SessionModel {
        if ok {
            SessionModel { state: DisplayState::Ready, pending: None }
        } else {
            SessionModel { state: DisplayState::Error, pending: None }
        }
    }
}

/// A display session.
#[derive(Clone, Copy, Debug)]
pub struct DisplaySession {
    state: DisplayState,
    pending: Option<DisplayCommand>,
}

impl View for DisplaySession {
    type V = SessionModel;

    closed spec fn view(&self) -> SessionModel {
        SessionModel { state: self.state, pending: self.pending }
    }
}

impl DisplaySession {
    #[verifier::type_invariant]
    spec fn inv(&self) -> bool {
        self@.wf()
    }

    /// A session that was never initialized.
    pub fn new() -> (session: DisplaySession)
        ensures
            session@ == (SessionModel { state: DisplayState::Uninitialized, pending: None }),
    {
        DisplaySession { state: DisplayState::Uninitialized, pending: None }
    }

    /// The session's state.
    pub fn state(&self) -> (state: DisplayState)
        ensures
            state == self@.state,
            self@.wf(),
    {
        proof {
            use_type_invariant(self);
        }
        self.state
    }

    /// The operation under way, if any.
    pub fn pending(&self) -> (pending: Option<DisplayCommand>)
        ensures
            pending == self@.pending,
            self@.wf(),
    {
        proof {
            use_type_invariant(self);
        }
        self.pending
    }

    /// Issues `command`. It is refused, and nothing changes, unless the
    /// session accepts it.
    pub fn begin(&mut self, command: DisplayCommand) -> (issued: Result<(), DisplayError>)
        ensures
            final(self)@.wf(),
            old(self)@.accepts(command) ==> issued.is_ok() && final(self)@ == old(self)@.begun(
                command,
            ),
            !old(self)@.accepts(command) ==> issued == Err::<(), DisplayError>(
                DisplayError::InvalidState,
            ) && final(self)@ == old(self)@,
    {
        proof {
            use_type_invariant(&*self);
        }
        let accepted = match command {
            DisplayCommand::Init => matches!(self.state, DisplayState::Uninitialized),
            _ => matches!(self.state, DisplayState::Ready) && self.pending.is_none(),
        };
        if !accepted {
            return Err(DisplayError::InvalidState);
        }
        let state = match command {
            DisplayCommand::Init => DisplayState::Initializing,
            _ => DisplayState::Ready,
        };
        *self = DisplaySession { state, pending: Some(command) };
        Ok(())
    }

    /// Reports how the operation under way ended. Success leaves the session
    /// ready; a hardware failure leaves it in `Error` for good. With nothing
    /// under way the call is refused and nothing changes.
    pub fn complete(&mut self, ok: bool) -> (done: Result<(), DisplayError>)
        ensures
            final(self)@.wf(),
            old(self)@.pending.is_some() ==> final(self)@ == old(self)@.completed(ok),
            old(self)@.pending.is_some() && ok ==> done.is_ok(),
            old(self)@.pending.is_some() && !ok ==> done == Err::<(), DisplayError>(
                DisplayError::Transport,
            ),
            old(self)@.pending.is_none() ==> done == Err::<(), DisplayError>(
                DisplayError::InvalidState,
            ) && final(self)@ == old(self)@,
    {
        proof {
            use_type_invariant(&*self);
        }
        if self.pending.is_none() {
            return Err(DisplayError::InvalidState);
        }
        if ok {
            *self = DisplaySession { state: DisplayState::Ready, pending: None };
            Ok(())
        } else {
            *self = DisplaySession { state: DisplayState::Error, pending: None };
            Err(DisplayError::Transport)
        }
    }
}

/// `Error` is final: a failed session accepts no command, and has nothing
/// under way whose completion could move it.
pub proof fn lemma_error_is_final(m: SessionModel, command: DisplayCommand)
    requires
        m.wf(),
        m.state == DisplayState::Error,
    ensures
        !m.accepts(command),
        m.pending.is_none(),
{
}

/// Every step keeps a session well formed, and the only steps there are
/// lead from `Uninitialized` to `Initializing`, from there to `Ready` or
/// `Error`, and from `Ready` back to `Ready` or on to `Error`.
pub proof fn lemma_session_steps(m: SessionModel, command: DisplayCommand, ok: bool)
    requires
        m.wf(),
    ensures
        m.accepts(command) ==> m.begun(command).wf(),
        m.pending.is_some() ==> m.completed(ok).wf(),
        m.accepts(command) && command == DisplayCommand::Init ==> m.state
            == DisplayState::Uninitialized && m.begun(command).state
            == DisplayState::Initializing,
        m.accepts(command) && command != DisplayCommand::Init ==> m.state == DisplayState::Ready
            && m.begun(command).state == DisplayState::Ready,
        m.pending.is_some() ==> (m.state == DisplayState::Initializing || m.state
            == DisplayState::Ready) && m.completed(ok).state == (if ok {
            DisplayState::Ready
        } else {
            DisplayState::Error
        }),
{
}

} // verus!
