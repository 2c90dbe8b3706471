//! The driving loop of a session, as a state machine.
//!
//! The driver never touches the terminal. It hands its caller one action at a
//! time: apply these attributes, write these bytes, read a byte, exit. The
//! caller performs the action and reports the outcome as an event, which
//! yields the next action. Raw mode is enabled first. Then the screen is
//! refreshed and a key awaited, over and over, until the quit key is pressed
//! or something fails. Whichever it is, the screen is refreshed once more and
//! the saved attributes are applied before the caller is told to exit, and a
//! failure of either of these two last steps is passed over.

use vstd::prelude::*;
use crate::attributes::{AttributesModel, TerminalAttributes};
use crate::error::IoError;
use crate::input::{quit_key, read_key_model, ReadOutcome, ReadStep};
use crate::session::{KeypressStep, SessionModel, TerminalSession};

verus! {

/// Where a run stands: the action that its caller has been asked to perform.
///
/// A session that no run has been started for is uninitialised. A run passes
/// through the phases in the order in which they stand here, going back and
/// forth between refreshing and awaiting a key for as long as it lasts.
#[derive(Clone, Copy, Debug, PartialEq, Eq)]
pub enum Phase {
    /// Raw mode is being applied.
    EnablingRawMode,
    /// A frame is being written, before the next key is awaited.
    Refreshing,
    /// A byte is being read.
    AwaitingKey,
    /// The quit key was pressed, and the frame that answers it is being
    /// written.
    Leaving,
    /// The run is over but for the cleanup, and its first step, a last frame,
    /// is being written.
    Clearing(Result<(), IoError>),
    /// The saved attributes are being applied.
    Restoring(Result<(), IoError>),
    /// The terminal is back as it was. Nothing is left to do but to exit.
    Restored(Result<(), IoError>),
}

/// What the caller reports of the action it performed.
#[derive(Clone, Copy, Debug, PartialEq, Eq, Structural)]
pub enum Event {
    /// The attributes were applied.
    Applied,
    /// The attributes could not be applied.
    ApplyFailed,
    /// The bytes were written and flushed.
    Written,
    /// The bytes could not be written.
    WriteFailed,
    /// A read of one byte came back.
    Read(ReadOutcome),
}

/// What the caller is asked to do next.
#[derive(Debug, PartialEq, Eq)]
pub enum Action {
    /// Apply these attributes to the terminal, discarding unread input.
    Apply(TerminalAttributes),
    /// Write these bytes to the output stream and flush it.
    Write(Vec<u8>),
    /// Read one byte from the input stream.
    Read,
    /// Leave, with this result.
    Exit(Result<(), IoError>),
}

/// The mathematical value of an [`Action`].
pub enum ActionModel {
    Apply(AttributesModel),
    Write(Seq<u8>),
    Read,
    Exit(Result<(), IoError>),
}

impl View for Action {
    type V = ActionModel;

    open spec fn view(&self) -> ActionModel {
        match self {
            Action::Apply(attributes) => ActionModel::Apply(attributes@),
            Action::Write(bytes) => ActionModel::Write(bytes@),
            Action::Read => ActionModel::Read,
            Action::Exit(status) => ActionModel::Exit(*status),
        }
    }
}

/// A run of a session.
#[derive(Debug)]
pub struct Driver {
    session: TerminalSession,
    phase: Phase,
}

/// The mathematical value of a [`Driver`].
pub struct DriverModel {
    pub session: SessionModel,
    pub phase: Phase,
}

impl View for Driver {
    type V = DriverModel;

    closed spec fn view(&self) -> DriverModel {
        DriverModel { session: self.session@, phase: self.phase }
    }
}

/// The phase that follows `phase` on `event`.
///
/// An event that does not answer the action of the phase changes nothing.
pub open spec fn next_phase(phase: Phase, event: Event) -> Phase {
    match phase {
        Phase::EnablingRawMode => match event {
            Event::Applied => Phase::Refreshing,
            Event::ApplyFailed => Phase::Clearing(Err(IoError::Attributes)),
            _ => phase,
        },
        Phase::Refreshing => match event {
            Event::Written => Phase::AwaitingKey,
            Event::WriteFailed => Phase::Clearing(Err(IoError::Write)),
            _ => phase,
        },
        Phase::AwaitingKey => match event {
            Event::Read(outcome) => match read_key_model(outcome) {
                ReadStep::Retry => Phase::AwaitingKey,
                ReadStep::Key(key) => if key == quit_key() {
                    Phase::Leaving
                } else {
                    Phase::Refreshing
                },
                ReadStep::Fail(error) => Phase::Clearing(Err(error)),
            },
            _ => phase,
        },
        Phase::Leaving => match event {
            Event::Written => Phase::Clearing(Ok(())),
            Event::WriteFailed => Phase::Clearing(Err(IoError::Write)),
            _ => phase,
        },
        Phase::Clearing(status) => match event {
            Event::Written => Phase::Restoring(status),
            Event::WriteFailed => Phase::Restoring(status),
            _ => phase,
        },
        Phase::Restoring(status) => match event {
            Event::Applied => Phase::Restored(status),
            Event::ApplyFailed => Phase::Restored(status),
            _ => phase,
        },
        Phase::Restored(status) => phase,
    }
}

/// The action that a run of `session` asks for in `phase`.
pub open spec fn pending(session: SessionModel, phase: Phase) -> ActionModel {
    match phase {
        Phase::EnablingRawMode => ActionModel::Apply(session.raw_mode()),
        Phase::Refreshing => ActionModel::Write(session.frame()),
        Phase::AwaitingKey => ActionModel::Read,
        Phase::Leaving => ActionModel::Write(session.frame()),
        Phase::Clearing(status) => ActionModel::Write(session.frame()),
        Phase::Restoring(status) => ActionModel::Apply(session.restored()),
        Phase::Restored(status) => ActionModel::Exit(status),
    }
}

/// The phase of a run after the given events.
pub open spec fn phase_after(events: Seq<Event>) -> Phase
    decreases events.len(),
{
    if events.len() == 0 {
        Phase::EnablingRawMode
    } else {
        next_phase(phase_after(events.drop_last()), events.last())
    }
}

/// Every action that a run of `session` has asked for by the time it has
/// taken the given events: the one it started with, and one for each event.
pub open spec fn actions(session: SessionModel, events: Seq<Event>) -> Seq<ActionModel> {
    Seq::new(events.len() + 1, |i: int| pending(session, phase_after(events.take(i))))
}

/// The attributes that the last `Apply` among `actions` asks for.
pub open spec fn last_applied(actions: Seq<ActionModel>) -> Option<AttributesModel>
    decreases actions.len(),
{
    if actions.len() == 0 {
        None
    } else {
        match actions.last() {
            ActionModel::Apply(attributes) => Some(attributes),
            _ => last_applied(actions.drop_last()),
        }
    }
}

/// The result that a run will end with, once it is settled: from the moment
/// the cleanup begins.
pub open spec fn settled_status(phase: Phase) -> Option<Result<(), IoError>> {
    match phase {
        Phase::Clearing(status) => Some(status),
        Phase::Restoring(status) => Some(status),
        Phase::Restored(status) => Some(status),
        _ => None,
    }
}

/// The exit code of a process that ends with `status`.
pub open spec fn exit_code_model(status: Result<(), IoError>) -> u8 {
    match status {
        Ok(_) => 0,
        Err(_) => 1,
    }
}

/// The exit code of a process that ends with `status`: zero after the quit
/// key, one after a failure.
pub fn exit_code(status: Result<(), IoError>) -> (code: u8)
    ensures
        code == exit_code_model(status),
{
    match status {
        Ok(_) => 0,
        Err(_) => 1,
    }
}

impl Driver {
    /// Starts a run: raw mode is to be applied.
    pub fn start(session: TerminalSession) -> (started: (Driver, Action))
        ensures
            started.0@ == (DriverModel { session: session@, phase: Phase::EnablingRawMode }),
            started.1@ == pending(session@, Phase::EnablingRawMode),
    {
        let raw = session.enable_raw_mode();
        (Driver { session, phase: Phase::EnablingRawMode }, Action::Apply(raw))
    }

    /// Where the run stands.
    pub fn phase(&self) -> (phase: Phase)
        ensures
            phase == self@.phase,
    {
        self.phase
    }

    /// The session that is run.
    pub fn session(&self) -> (session: &TerminalSession)
        ensures
            session@ == self@.session,
    {
        &self.session
    }

    /// Takes what the caller reports of the action it was asked for, and
    /// gives the next action.
    ///
    /// The session stays as it is, and with it the saved attributes.
    pub fn step(&mut self, event: Event) -> (action: Action)
        ensures
            final(self)@.session == old(self)@.session,
            final(self)@.phase == next_phase(old(self)@.phase, event),
            action@ == pending(final(self)@.session, final(self)@.phase),
    {
        let next = match self.phase {
            Phase::EnablingRawMode => match event {
                Event::Applied => Phase::Refreshing,
                Event::ApplyFailed => Phase::Clearing(Err(IoError::Attributes)),
                _ => self.phase,
            },
            Phase::Refreshing => match event {
                Event::Written => Phase::AwaitingKey,
                Event::WriteFailed => Phase::Clearing(Err(IoError::Write)),
                _ => self.phase,
            },
            Phase::AwaitingKey => match event {
                Event::Read(outcome) => match self.session.process_keypress(outcome) {
                    KeypressStep::ReadAgain => Phase::AwaitingKey,
                    KeypressStep::Continue => Phase::Refreshing,
                    KeypressStep::Terminate(frame) => {
                        self.phase = Phase::Leaving;
                        return Action::Write(frame);
                    },
                    KeypressStep::Fail(error) => Phase::Clearing(Err(error)),
                },
                _ => self.phase,
            },
            Phase::Leaving => match event {
                Event::Written => Phase::Clearing(Ok(())),
                Event::WriteFailed => Phase::Clearing(Err(IoError::Write)),
                _ => self.phase,
            },
            Phase::Clearing(status) => match event {
                Event::Written => Phase::Restoring(status),
                Event::WriteFailed => Phase::Restoring(status),
                _ => self.phase,
            },
            Phase::Restoring(status) => match event {
                Event::Applied => Phase::Restored(status),
                Event::ApplyFailed => Phase::Restored(status),
                _ => self.phase,
            },
            Phase::Restored(status) => self.phase,
        };
        self.phase = next;
        match next {
            Phase::EnablingRawMode => Action::Apply(self.session.enable_raw_mode()),
            Phase::Refreshing => Action::Write(self.session.refresh_screen()),
            Phase::AwaitingKey => Action::Read,
            Phase::Leaving => Action::Write(self.session.refresh_screen()),
            Phase::Clearing(status) => Action::Write(self.session.refresh_screen()),
            Phase::Restoring(status) => Action::Apply(self.session.disable_raw_mode()),
            Phase::Restored(status) => Action::Exit(status),
        }
    }
}

/// Whenever a run tells its caller to exit, the attributes that it last asked
/// to apply are those that the session began with: the terminal is restored
/// on every path out, after the quit key and after a failure alike.
pub proof fn lemma_exit_follows_restore(session: SessionModel, events: Seq<Event>)
    requires
        actions(session, events).last() is Exit,
    ensures
        last_applied(actions(session, events)) == Some(session.restored()),
{
    assert(events.take(events.len() as int) =~= events);
    assert(actions(session, events).last() == pending(session, phase_after(events)));
    lemma_restored_once_restoring(session, events);
}

proof fn lemma_restored_once_restoring(session: SessionModel, events: Seq<Event>)
    ensures
        phase_after(events) is Restoring || phase_after(events) is Restored ==> last_applied(
            actions(session, events),
        ) == Some(session.restored()),
    decreases events.len(),
{
    let all = actions(session, events);
    assert(events.take(events.len() as int) =~= events);
    assert(all.last() == pending(session, phase_after(events)));
    if events.len() > 0 {
        let before = events.drop_last();
        lemma_restored_once_restoring(session, before);
        assert(all.drop_last() =~= actions(session, before)) by {
            assert forall|i: int| 0 <= i < all.len() - 1 implies all.drop_last()[i] == actions(
                session,
                before,
            )[i] by {
                assert(before.take(i) =~= events.take(i));
            }
        }
    }
}

/// Once the cleanup has begun, nothing changes the result of the run: a
/// failure during cleanup neither hides an earlier error nor spoils a run
/// that ended well.
pub proof fn lemma_cleanup_keeps_status(events: Seq<Event>, more: Seq<Event>)
    requires
        settled_status(phase_after(events)) is Some,
    ensures
        settled_status(phase_after(events + more)) == settled_status(phase_after(events)),
    decreases more.len(),
{
    if more.len() == 0 {
        assert(events + more =~= events);
    } else {
        assert((events + more).drop_last() =~= events + more.drop_last());
        lemma_cleanup_keeps_status(events, more.drop_last());
    }
}

/// A run ends well only after the quit key was read.
pub proof fn lemma_success_follows_quit_key(session: SessionModel, events: Seq<Event>)
    requires
        actions(session, events).last() == ActionModel::Exit(Ok(())),
    ensures
        exists|i: int|
            0 <= i < events.len() && #[trigger] events[i] == Event::Read(
                ReadOutcome::Byte(quit_key()),
            ),
{
    assert(events.take(events.len() as int) =~= events);
    lemma_quit_key_read_once_leaving(events);
}

/// A phase that a run is in once the quit key has been answered.
pub open spec fn leaves_well(phase: Phase) -> bool {
    match phase {
        Phase::Leaving => true,
        Phase::Clearing(status) => status is Ok,
        Phase::Restoring(status) => status is Ok,
        Phase::Restored(status) => status is Ok,
        _ => false,
    }
}

proof fn lemma_quit_key_read_once_leaving(events: Seq<Event>)
    requires
        leaves_well(phase_after(events)),
    ensures
        exists|i: int|
            0 <= i < events.len() && #[trigger] events[i] == Event::Read(
                ReadOutcome::Byte(quit_key()),
            ),
    decreases events.len(),
{
    if events.len() > 0 {
        let before = events.drop_last();
        if leaves_well(phase_after(before)) {
            lemma_quit_key_read_once_leaving(before);
            let i = choose|i: int|
                0 <= i < before.len() && #[trigger] before[i] == Event::Read(
                    ReadOutcome::Byte(quit_key()),
                );
            assert(events[i] == before[i]);
        } else {
            assert(events[events.len() - 1] == Event::Read(ReadOutcome::Byte(quit_key())));
        }
    }
}

} // verus!
