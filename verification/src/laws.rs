//! What holds of the engine whatever the table, the state and the history.
//!
//! Each statement is about [`transition`], the function that
//! [`SyncEngine::step`](crate::engine::SyncEngine::step) computes, and about
//! [`shown_after`], which says what an action does to the tray.

use vstd::prelude::*;
use crate::dispatch::{dispatched, MenuOrigin, Selection, UserIntent};
use crate::engine::{shown_after, transition, ActionView, EngineError, Event, Phase};
use crate::engine::{CommandError, ProbeError};
use crate::menu::{has_id, MenuItemView};
use crate::presentation::{presentation_of, PresentationView};
use crate::service::{ServiceCommand, ServiceState};

verus! {

/// The phase in which `events`, taken in order from `phase`, leave the
/// engine.
pub open spec fn phase_after(items: Seq<MenuItemView>, phase: Phase, events: Seq<Event>) -> Phase
    decreases events.len(),
{
    if events.len() == 0 {
        phase
    } else {
        phase_after(items, transition(items, phase, events[0]).0, events.drop_first())
    }
}

/// What the tray shows after `events`, taken in order from `phase`, have each
/// been answered and the answer performed, on a tray that showed `before`.
pub open spec fn shown_after_all(
    items: Seq<MenuItemView>,
    phase: Phase,
    before: PresentationView,
    events: Seq<Event>,
) -> PresentationView
    decreases events.len(),
{
    if events.len() == 0 {
        before
    } else {
        let (next, action) = transition(items, phase, events[0]);
        shown_after_all(items, next, shown_after(before, action), events.drop_first())
    }
}

/// How many of the answers to `events`, taken in order from `phase`, tell the
/// caller to end the event loop.
pub open spec fn terminations(items: Seq<MenuItemView>, phase: Phase, events: Seq<Event>) -> nat
    decreases events.len(),
{
    if events.len() == 0 {
        0
    } else {
        let (next, action) = transition(items, phase, events[0]);
        let here: nat = if action is Terminate {
            1
        } else {
            0
        };
        here + terminations(items, next, events.drop_first())
    }
}

/// The three events of a toggle: the selection, the probe's answer, the
/// command's outcome.
pub open spec fn toggle_round(
    selection: Selection,
    found: ServiceState,
    outcome: Result<(), CommandError>,
) -> Seq<Event> {
    seq![Event::Selected(selection), Event::Probed(Ok(found)), Event::Commanded(outcome)]
}

/// A presentation depends on the state alone. A refresh that finds the
/// service in `state` leaves the tray showing the presentation of `state`,
/// whatever it showed before, and a second such refresh changes nothing.
pub proof fn refresh_forgets_history(
    items: Seq<MenuItemView>,
    state: ServiceState,
    before: PresentationView,
    other: PresentationView,
)
    ensures
        ({
            let round = seq![Event::Resync, Event::Probed(Ok(state))];
            let once = shown_after_all(items, Phase::Idle, before, round);
            &&& once == presentation_of(items, state)
            &&& once == shown_after_all(items, Phase::Idle, other, round)
            &&& once == shown_after_all(items, Phase::Idle, once, round)
            &&& phase_after(items, Phase::Idle, round) == Phase::Idle
        }),
{
    let round = seq![Event::Resync, Event::Probed(Ok(state))];
    refresh_round_unfolds(items, state, before);
    refresh_round_unfolds(items, state, other);
    refresh_round_unfolds(items, state, shown_after_all(items, Phase::Idle, before, round));
}

/// One refresh, step by step.
proof fn refresh_round_unfolds(
    items: Seq<MenuItemView>,
    state: ServiceState,
    before: PresentationView,
)
    ensures
        ({
            let round = seq![Event::Resync, Event::Probed(Ok(state))];
            &&& shown_after_all(items, Phase::Idle, before, round) == presentation_of(items, state)
            &&& phase_after(items, Phase::Idle, round) == Phase::Idle
        }),
{
    let round = seq![Event::Resync, Event::Probed(Ok(state))];
    let rest = round.drop_first();
    assert(rest =~= seq![Event::Probed(Ok(state))]);
    assert(rest.drop_first() =~= Seq::<Event>::empty());
    reveal_with_fuel(shown_after_all, 3);
    reveal_with_fuel(phase_after, 3);
}

/// One toggle, step by step: where it leaves the engine and the tray.
pub proof fn toggle_round_unfolds(
    items: Seq<MenuItemView>,
    selection: Selection,
    found: ServiceState,
    outcome: Result<(), CommandError>,
    before: PresentationView,
)
    requires
        dispatched(items, selection) == Some(UserIntent::ToggleService),
    ensures
        ({
            let round = toggle_round(selection, found, outcome);
            &&& phase_after(items, Phase::Idle, round) == Phase::Idle
            &&& shown_after_all(items, Phase::Idle, before, round) == match outcome {
                Ok(_) => presentation_of(items, found.spec_complement()),
                Err(_) => before,
            }
            &&& terminations(items, Phase::Idle, round) == 0
        }),
{
    let round = toggle_round(selection, found, outcome);
    let rest = round.drop_first();
    assert(rest =~= seq![Event::Probed(Ok(found)), Event::Commanded(outcome)]);
    let last = rest.drop_first();
    assert(last =~= seq![Event::Commanded(outcome)]);
    assert(last.drop_first() =~= Seq::<Event>::empty());
    reveal_with_fuel(shown_after_all, 4);
    reveal_with_fuel(phase_after, 4);
    reveal_with_fuel(terminations, 4);
}

/// Toggling twice, each command succeeding, brings back the presentation of
/// the state the service was in at first.
pub proof fn toggle_twice_restores(
    items: Seq<MenuItemView>,
    selection: Selection,
    state: ServiceState,
    before: PresentationView,
)
    requires
        dispatched(items, selection) == Some(UserIntent::ToggleService),
    ensures
        ({
            let first = toggle_round(selection, state, Ok(()));
            let second = toggle_round(selection, state.spec_complement(), Ok(()));
            let midway = shown_after_all(items, Phase::Idle, before, first);
            &&& phase_after(items, Phase::Idle, first) == Phase::Idle
            &&& midway == presentation_of(items, state.spec_complement())
            &&& phase_after(items, Phase::Idle, second) == Phase::Idle
            &&& shown_after_all(items, Phase::Idle, midway, second) == presentation_of(
                items,
                state,
            )
        }),
{
    let first = toggle_round(selection, state, Ok(()));
    let midway = shown_after_all(items, Phase::Idle, before, first);
    toggle_round_unfolds(items, selection, state, Ok(()), before);
    toggle_round_unfolds(items, selection, state.spec_complement(), Ok(()), midway);
}

/// A command that fails is reported, and the tray shows what it showed
/// before: both at the step that takes the failure in and over the whole
/// toggle.
pub proof fn failed_command_keeps_presentation(
    items: Seq<MenuItemView>,
    selection: Selection,
    found: ServiceState,
    error: CommandError,
    before: PresentationView,
)
    requires
        dispatched(items, selection) == Some(UserIntent::ToggleService),
    ensures
        ({
            let (next, action) = transition(
                items,
                Phase::Commanding(found),
                Event::Commanded(Err(error)),
            );
            &&& next == Phase::Idle
            &&& action == ActionView::Report(
                EngineError::Command(ServiceCommand::spec_toggling(found), error),
            )
            &&& shown_after(before, action) == before
        }),
        shown_after_all(items, Phase::Idle, before, toggle_round(selection, found, Err(error)))
            == before,
{
    toggle_round_unfolds(items, selection, found, Err(error), before);
}

/// A probe that fails is reported, and the tray shows what it showed before,
/// whether the probe served a refresh or a toggle. No state is guessed.
pub proof fn failed_probe_keeps_presentation(
    items: Seq<MenuItemView>,
    phase: Phase,
    error: ProbeError,
    before: PresentationView,
)
    requires
        phase == Phase::Refreshing || phase == Phase::Toggling,
    ensures
        ({
            let (next, action) = transition(items, phase, Event::Probed(Err(error)));
            &&& next == Phase::Idle
            &&& action == ActionView::Report(EngineError::Probe(error))
            &&& shown_after(before, action) == before
        }),
{
}

/// The tray is only ever redrawn on the strength of a probe that answered or
/// of a command that succeeded.
pub proof fn apply_follows_success(items: Seq<MenuItemView>, phase: Phase, event: Event)
    requires
        transition(items, phase, event).1 is Apply,
    ensures
        event matches Event::Probed(Ok(_)) || event matches Event::Commanded(Ok(_)),
{
}

/// Quitting tells the caller to end the event loop and leaves the tray as it
/// is.
pub proof fn quit_terminates(
    items: Seq<MenuItemView>,
    selection: Selection,
    before: PresentationView,
)
    requires
        dispatched(items, selection) == Some(UserIntent::Quit),
    ensures
        ({
            let (next, action) = transition(items, Phase::Idle, Event::Selected(selection));
            &&& next == Phase::Terminated
            &&& action == ActionView::Terminate
            &&& shown_after(before, action) == before
        }),
{
}

/// Once the user has quit, no event is answered with anything, and the tray
/// stays as it is.
pub proof fn terminated_is_final(
    items: Seq<MenuItemView>,
    before: PresentationView,
    events: Seq<Event>,
)
    ensures
        phase_after(items, Phase::Terminated, events) == Phase::Terminated,
        shown_after_all(items, Phase::Terminated, before, events) == before,
        terminations(items, Phase::Terminated, events) == 0,
    decreases events.len(),
{
    if events.len() > 0 {
        terminated_is_final(items, before, events.drop_first());
    }
}

/// Whatever happens, the caller is told to end the event loop at most once;
/// and a quit taken in by an idle engine is that one time.
pub proof fn terminates_at_most_once(items: Seq<MenuItemView>, phase: Phase, events: Seq<Event>)
    ensures
        terminations(items, phase, events) <= 1,
        phase_after(items, phase, events) == Phase::Terminated && phase != Phase::Terminated
            ==> terminations(items, phase, events) == 1,
        events.len() > 0 && phase == Phase::Idle && (events[0] matches Event::Selected(selection)
            && dispatched(items, selection) == Some(UserIntent::Quit)) ==> terminations(
            items,
            phase,
            events,
        ) == 1,
    decreases events.len(),
{
    if events.len() > 0 {
        let (next, action) = transition(items, phase, events[0]);
        let rest = events.drop_first();
        terminates_at_most_once(items, next, rest);
        if action is Terminate {
            assert(next == Phase::Terminated);
            terminated_is_final(items, presentation_of(items, ServiceState::Active), rest);
        } else if phase == Phase::Terminated {
            terminated_is_final(items, presentation_of(items, ServiceState::Active), events);
        } else {
            assert(next != Phase::Terminated);
        }
    }
}

/// A selection that does not come from the tray's context menu, or that names
/// no entry of the table, asks for nothing: in every phase the engine stays
/// where it is, answers with no action, and the tray stays as it is.
pub proof fn stray_selection_is_ignored(
    items: Seq<MenuItemView>,
    phase: Phase,
    selection: Selection,
    before: PresentationView,
)
    requires
        selection.origin != MenuOrigin::ContextMenu || !has_id(items, selection.menu_id),
    ensures
        dispatched(items, selection) is None,
        transition(items, phase, Event::Selected(selection)) == (phase, ActionView::Nothing),
        shown_after(before, transition(items, phase, Event::Selected(selection)).1) == before,
{
}

} // verus!
