//! The synchronisation engine: what to do next, given what just happened.
//!
//! The engine never touches the service or the tray. It is handed events
//! (a selection, the answer of a probe, the outcome of a command) and answers
//! each with one action for the caller to perform. Between a selection and the
//! action that settles it the engine remembers what it is waiting for, and
//! nothing else: the service's state is asked for anew every time.

use vstd::prelude::*;
use crate::dispatch::{dispatch, dispatched, Selection, UserIntent};
use crate::menu::MenuItemView;
use crate::presentation::{presentation_of, Presentation, PresentationTable, PresentationView};
use crate::service::{ServiceCommand, ServiceState};

verus! {

/// Why the service's state could not be determined.
#[derive(Clone, Copy, Debug, PartialEq, Eq, Structural)]
pub enum ProbeError {
    /// The service manager refused the query.
    Denied,
    /// The service manager could not be asked, or gave no usable answer.
    Unavailable,
}

/// Why a command did not take effect.
#[derive(Clone, Copy, Debug, PartialEq, Eq, Structural)]
pub enum CommandError {
    /// The command could not be handed to the service manager.
    NotRun,
    /// The service manager ran the command and reported failure.
    Failed,
}

/// A failure to bring before the user. The tray is left as it was.
#[derive(Clone, Copy, Debug, PartialEq, Eq, Structural)]
pub enum EngineError {
    Probe(ProbeError),
    Command(ServiceCommand, CommandError),
}

/// What the engine is waiting for.
#[derive(Clone, Copy, Debug, PartialEq, Eq, Structural)]
pub enum Phase {
    /// The next request.
    Idle,
    /// The answer of a probe, in order to show it.
    Refreshing,
    /// The answer of a probe, in order to toggle the service.
    Toggling,
    /// The outcome of the command issued to a service found in this state.
    Commanding(ServiceState),
    /// Nothing: the user has quit.
    Terminated,
}

/// What happened.
#[derive(Clone, Copy, Debug, PartialEq, Eq)]
pub enum Event {
    /// The tray needs to be drawn afresh: at startup, or when the event loop
    /// wakes.
    Resync,
    /// The user selected a menu entry.
    Selected(Selection),
    /// A probe came back.
    Probed(Result<ServiceState, ProbeError>),
    /// A command came back.
    Commanded(Result<(), CommandError>),
}

/// An action as contracts see it.
pub enum ActionView {
    Nothing,
    Probe,
    Issue(ServiceCommand),
    Apply(ServiceState, PresentationView),
    Report(EngineError),
    Terminate,
}

/// What the caller is to do.
#[derive(Debug, PartialEq, Eq)]
pub enum Action {
    /// Nothing at all.
    Nothing,
    /// Ask the service manager whether the service runs, and hand the answer
    /// back as [`Event::Probed`].
    Probe,
    /// Issue the command, and hand its outcome back as [`Event::Commanded`].
    Issue(ServiceCommand),
    /// The service is now in this state: show this presentation.
    Apply(ServiceState, Presentation),
    /// Bring the failure before the user; leave the tray as it is.
    Report(EngineError),
    /// End the event loop.
    Terminate,
}

impl View for Action {
    type V = ActionView;

    open spec fn view(&self) -> ActionView {
        match *self {
            Action::Nothing => ActionView::Nothing,
            Action::Probe => ActionView::Probe,
            Action::Issue(command) => ActionView::Issue(command),
            Action::Apply(state, shown) => ActionView::Apply(state, shown@),
            Action::Report(error) => ActionView::Report(error),
            Action::Terminate => ActionView::Terminate,
        }
    }
}

/// The phase an idle engine enters on `intent`, and its first action.
pub open spec fn begin(intent: UserIntent) -> (Phase, ActionView) {
    match intent {
        UserIntent::RefreshStatus => (Phase::Refreshing, ActionView::Probe),
        UserIntent::ToggleService => (Phase::Toggling, ActionView::Probe),
        UserIntent::Quit => (Phase::Terminated, ActionView::Terminate),
    }
}

/// The engine's transition function over a table of `items`: the phase after
/// `event` arrives in `phase`, and the action that answers it. An event that
/// the phase does not wait for changes nothing and asks for nothing.
pub open spec fn transition(items: Seq<MenuItemView>, phase: Phase, event: Event) -> (
    Phase,
    ActionView,
) {
    match (phase, event) {
        (Phase::Idle, Event::Resync) => begin(UserIntent::RefreshStatus),
        (Phase::Idle, Event::Selected(selection)) => match dispatched(items, selection) {
            Some(intent) => begin(intent),
            None => (Phase::Idle, ActionView::Nothing),
        },
        (Phase::Refreshing, Event::Probed(Ok(state))) => (
            Phase::Idle,
            ActionView::Apply(state, presentation_of(items, state)),
        ),
        (Phase::Refreshing, Event::Probed(Err(error))) => (
            Phase::Idle,
            ActionView::Report(EngineError::Probe(error)),
        ),
        (Phase::Toggling, Event::Probed(Ok(state))) => (
            Phase::Commanding(state),
            ActionView::Issue(ServiceCommand::spec_toggling(state)),
        ),
        (Phase::Toggling, Event::Probed(Err(error))) => (
            Phase::Idle,
            ActionView::Report(EngineError::Probe(error)),
        ),
        (Phase::Commanding(state), Event::Commanded(Ok(()))) => (
            Phase::Idle,
            ActionView::Apply(
                state.spec_complement(),
                presentation_of(items, state.spec_complement()),
            ),
        ),
        (Phase::Commanding(state), Event::Commanded(Err(error))) => (
            Phase::Idle,
            ActionView::Report(EngineError::Command(ServiceCommand::spec_toggling(state), error)),
        ),
        _ => (phase, ActionView::Nothing),
    }
}

/// What the tray shows once `action` has been performed on a tray that showed
/// `before`.
pub open spec fn shown_after(before: PresentationView, action: ActionView) -> PresentationView {
    match action {
        ActionView::Apply(_, shown) => shown,
        _ => before,
    }
}

/// The outcome of a command, given whether the service manager reported
/// success.
pub fn command_outcome(success: bool) -> (outcome: Result<(), CommandError>)
    ensures
        outcome == if success {
            Ok::<(), CommandError>(())
        } else {
            Err::<(), CommandError>(CommandError::Failed)
        },
{
    if success {
        Ok(())
    } else {
        Err(CommandError::Failed)
    }
}

/// The engine: a table and the phase it is in.
pub struct SyncEngine {
    table: PresentationTable,
    phase: Phase,
}

impl SyncEngine {
    /// The entries of the engine's table.
    pub closed spec fn entries(&self) -> Seq<MenuItemView> {
        self.table.entries()
    }

    /// The phase the engine is in.
    pub closed spec fn spec_phase(&self) -> Phase {
        self.phase
    }

    /// The engine's table is well formed.
    pub closed spec fn wf(&self) -> bool {
        self.table.wf()
    }

    /// An idle engine over `table`.
    pub fn new(table: PresentationTable) -> (engine: SyncEngine)
        requires
            table.wf(),
        ensures
            engine.wf(),
            engine.entries() == table.entries(),
            engine.spec_phase() == Phase::Idle,
    {
        SyncEngine { table, phase: Phase::Idle }
    }

    /// The phase the engine is in.
    pub fn phase(&self) -> (phase: Phase)
        ensures
            phase == self.spec_phase(),
    {
        self.phase
    }

    /// The engine's table.
    pub fn table(&self) -> (table: &PresentationTable)
        requires
            self.wf(),
        ensures
            table.wf(),
            table.entries() == self.entries(),
    {
        &self.table
    }

    /// Takes `event` in and says what to do. The table stays as it is.
    pub fn step(&mut self, event: Event) -> (action: Action)
        requires
            old(self).wf(),
        ensures
            final(self).wf(),
            final(self).entries() == old(self).entries(),
            (final(self).spec_phase(), action@) == transition(
                old(self).entries(),
                old(self).spec_phase(),
                event,
            ),
    {
        match (self.phase, event) {
            (Phase::Idle, Event::Resync) => self.enter(UserIntent::RefreshStatus),
            (Phase::Idle, Event::Selected(selection)) => match dispatch(&self.table, selection) {
                Some(intent) => self.enter(intent),
                None => Action::Nothing,
            },
            (Phase::Refreshing, Event::Probed(Ok(state))) => {
                self.phase = Phase::Idle;
                Action::Apply(state, self.table.compute_presentation(state))
            },
            (Phase::Refreshing, Event::Probed(Err(error))) => {
                self.phase = Phase::Idle;
                Action::Report(EngineError::Probe(error))
            },
            (Phase::Toggling, Event::Probed(Ok(state))) => {
                self.phase = Phase::Commanding(state);
                Action::Issue(ServiceCommand::toggling(state))
            },
            (Phase::Toggling, Event::Probed(Err(error))) => {
                self.phase = Phase::Idle;
                Action::Report(EngineError::Probe(error))
            },
            (Phase::Commanding(state), Event::Commanded(Ok(()))) => {
                self.phase = Phase::Idle;
                let next = state.complement();
                Action::Apply(next, self.table.compute_presentation(next))
            },
            (Phase::Commanding(state), Event::Commanded(Err(error))) => {
                self.phase = Phase::Idle;
                Action::Report(EngineError::Command(ServiceCommand::toggling(state), error))
            },
            _ => Action::Nothing,
        }
    }

    /// Leaves the idle phase on `intent`.
    fn enter(&mut self, intent: UserIntent) -> (action: Action)
        requires
            old(self).wf(),
        ensures
            final(self).wf(),
            final(self).entries() == old(self).entries(),
            (final(self).spec_phase(), action@) == begin(intent),
    {
        match intent {
            UserIntent::RefreshStatus => {
                self.phase = Phase::Refreshing;
                Action::Probe
            },
            UserIntent::ToggleService => {
                self.phase = Phase::Toggling;
                Action::Probe
            },
            UserIntent::Quit => {
                self.phase = Phase::Terminated;
                Action::Terminate
            },
        }
    }
}

} // verus!
