//! What holds of every start, whatever the host reports and in whatever
//! order: statements over whole histories of the startup machine.
//!
//! A history is what a fresh machine hands out while a sequence of events is
//! reported to it. The events are arbitrary: a host that reports nonsense is
//! refused event by event, and the statements below hold of it too.

use vstd::prelude::*;
use crate::startup::{
    awaits_shell, capability_order, logging_level, stage_allowed, transition, Action, Capability,
    Event, LogLevel, Stage,
};

verus! {

/// The stage that a fresh machine has reached once `events` have been
/// reported in order. An event that is not awaited where it arrives changes
/// nothing.
pub open spec fn stage_reached(debug: bool, events: Seq<Event>) -> Stage
    decreases events.len(),
{
    if events.len() == 0 {
        Stage::Created
    } else {
        let before = stage_reached(debug, events.drop_last());
        match transition(debug, before, events.last()) {
            Some((next, _)) => next,
            None => before,
        }
    }
}

/// The actions that a fresh machine hands out, in order, while `events` are
/// reported. An event that is not awaited where it arrives yields none.
pub open spec fn history(debug: bool, events: Seq<Event>) -> Seq<Action>
    decreases events.len(),
{
    if events.len() == 0 {
        Seq::empty()
    } else {
        let earlier = history(debug, events.drop_last());
        match transition(debug, stage_reached(debug, events.drop_last()), events.last()) {
            Some((_, action)) => earlier.push(action),
            None => earlier,
        }
    }
}

/// The actions that bring the shell up: one registration per capability, in
/// order, and then the launch.
pub open spec fn boot_actions() -> Seq<Action> {
    capability_order().map_values(|capability: Capability| Action::Register(capability)).push(
        Action::Launch,
    )
}

/// Whether `action` ends a start.
pub open spec fn is_verdict(action: Action) -> bool {
    action is Exit || action is Abort
}

/// Whether `action` is an answer of the setup hook to the shell.
pub open spec fn is_setup_answer(action: Action) -> bool {
    action is CompleteSetup || action is FailSetup
}

/// One more report extends a history by one transition: the machine goes from
/// the stage it had reached to the next, and its action, if the event was
/// awaited, is the history's new last. So a host that calls `step` once per
/// event has, after `events`, a machine at `stage_reached` and has been handed
/// `history`.
pub proof fn law_report_extends_history(debug: bool, events: Seq<Event>, event: Event)
    ensures
        match transition(debug, stage_reached(debug, events), event) {
            Some((next, action)) => stage_reached(debug, events.push(event)) == next && history(
                debug,
                events.push(event),
            ) == history(debug, events).push(action),
            None => stage_reached(debug, events.push(event)) == stage_reached(debug, events)
                && history(debug, events.push(event)) == history(debug, events),
        },
{
    assert(events.push(event).drop_last() =~= events);
}

/// The reachable stages are the allowed ones: whatever is reported, logging is
/// waited for, or has failed, in a development build only.
pub proof fn law_reachable_stages_allowed(debug: bool, events: Seq<Event>)
    ensures
        stage_allowed(debug, stage_reached(debug, events)),
{
    lemma_history_by_stage(debug, events);
}

/// Whatever is reported, the history begins with the boot actions, as far as
/// it goes: each capability is registered in its place, and the launch comes
/// right after the last. Past them nothing is registered and nothing is
/// launched, so every capability is registered at most once and the shell is
/// launched at most once, after all of them.
pub proof fn law_boot_order(debug: bool, events: Seq<Event>)
    ensures
        forall|i: int|
            0 <= i < history(debug, events).len() && i < boot_actions().len() ==> #[trigger] history(
                debug,
                events,
            )[i] == boot_actions()[i],
        forall|i: int|
            boot_actions().len() <= i < history(debug, events).len() ==> {
                let action = #[trigger] history(debug, events)[i];
                !(action is Register) && !(action is Launch)
            },
{
    lemma_history_by_place(debug, events);
    lemma_boot_actions();
    let actions = history(debug, events);
    assert forall|i: int| 0 <= i < actions.len() && i < boot_actions().len() implies actions[i]
        == boot_actions()[i] by {
        lemma_place(i);
    }
    assert forall|i: int| boot_actions().len() <= i < actions.len() implies !(actions[i]
        is Register) && !(actions[i] is Launch) by {
        lemma_place(i);
    }
}

/// Logging belongs to development builds. Whatever is reported, logging is
/// attached at most once, right after the launch and at [`logging_level`], and
/// never in a release build. The setup hook fails only in a development build,
/// as the action that follows the attachment.
pub proof fn law_logging_in_development_only(debug: bool, events: Seq<Event>)
    ensures
        forall|i: int|
            0 <= i < history(debug, events).len() ==> (#[trigger] history(
                debug,
                events,
            )[i] matches Action::AttachLogging(level) ==> debug && level == logging_level() && i
                == boot_actions().len()),
        forall|i: int|
            0 <= i < history(debug, events).len() && (#[trigger] history(debug, events)[i])
                is FailSetup ==> debug && i == boot_actions().len() + 1 && history(
                debug,
                events,
            )[boot_actions().len() as int] is AttachLogging,
{
    lemma_history_by_place(debug, events);
    lemma_boot_actions();
    let actions = history(debug, events);
    assert forall|i: int| 0 <= i < actions.len() implies (
    #[trigger] actions[i] matches Action::AttachLogging(level) ==> debug && level
        == logging_level() && i == 4) by {
        lemma_place(i);
    }
    assert forall|i: int| 0 <= i < actions.len() && (#[trigger] actions[i])
        is FailSetup implies debug && i == 5 && actions[4] is AttachLogging by {
        lemma_place(i);
    }
}

/// The setup hook answers the shell at most once, and only after the launch.
pub proof fn law_setup_answers_once(debug: bool, events: Seq<Event>)
    ensures
        forall|i: int, j: int|
            #![trigger history(debug, events)[i], history(debug, events)[j]]
            0 <= i < history(debug, events).len() && 0 <= j < history(debug, events).len()
                && is_setup_answer(history(debug, events)[i]) && is_setup_answer(
                history(debug, events)[j],
            ) ==> i == j && i >= boot_actions().len(),
{
    lemma_history_by_place(debug, events);
    lemma_boot_actions();
    let actions = history(debug, events);
    assert forall|i: int, j: int|
        0 <= i < actions.len() && 0 <= j < actions.len() && is_setup_answer(actions[i])
            && is_setup_answer(actions[j]) implies i == j && i >= boot_actions().len() by {
        lemma_place(i);
        lemma_place(j);
    }
}

/// Nothing follows a verdict. Whatever is reported, an exit or an abort is the
/// last action of its history, so a start has one verdict at most. The start
/// has ended in an abort exactly when its history ends with one, and has
/// finished exactly when its history ends with an exit.
pub proof fn law_verdict_is_last(debug: bool, events: Seq<Event>)
    ensures
        forall|i: int|
            0 <= i < history(debug, events).len() && is_verdict(
                #[trigger] history(debug, events)[i],
            ) ==> i + 1 == history(debug, events).len(),
        stage_reached(debug, events) is Aborted <==> history(debug, events).len() > 0 && history(
            debug,
            events,
        ).last() is Abort,
        stage_reached(debug, events) is Finished <==> history(debug, events).len() > 0 && history(
            debug,
            events,
        ).last() is Exit,
{
    lemma_history_by_place(debug, events);
    let actions = history(debug, events);
    assert forall|i: int| 0 <= i < actions.len() && is_verdict(actions[i]) implies i + 1
        == actions.len() by {
        lemma_place(i);
    }
}

/// A start is short. However many events are reported, a release build hands
/// out six actions at most and a development build seven.
pub proof fn law_history_bounded(debug: bool, events: Seq<Event>)
    ensures
        history(debug, events).len() <= boot_actions().len() + (if debug {
            3nat
        } else {
            2nat
        }),
{
    lemma_history_by_place(debug, events);
    lemma_boot_actions();
}

/// The verdict goes by the shell's result alone. At any stage and in either
/// configuration the answer is an abort exactly when the shell's run is
/// reported to have failed while the host's code awaits it, and an exit
/// exactly when it is reported to have returned then: what the setup hook did
/// before makes no difference.
pub proof fn law_verdict_by_shell_result(debug: bool, stage: Stage, event: Event)
    ensures
        transition(debug, stage, event) == Some((Stage::Aborted, Action::Abort)) <==> awaits_shell(
            stage,
        ) && event is ShellFailed,
        transition(debug, stage, event) == Some((Stage::Finished, Action::Exit)) <==> awaits_shell(
            stage,
        ) && event is ShellReturned,
        transition(debug, stage, event) matches Some((next, action)) ==> (action is Abort <==> next
            is Aborted) && (action is Exit <==> next is Finished),
{
}

/// A start is over exactly at its verdict. After an exit or an abort every
/// report is refused, and at every stage before some report is awaited.
pub proof fn law_over_at_verdict_only(debug: bool, stage: Stage)
    ensures
        (stage is Finished || stage is Aborted) <==> forall|event: Event|
            (#[trigger] transition(debug, stage, event)) is None,
{
    if !(stage is Finished || stage is Aborted) {
        let awaited = match stage {
            Stage::Created => Event::BuilderCreated,
            Stage::Registering(_) => Event::CapabilityRegistered,
            Stage::AttachingLogging => Event::LoggingAttached,
            _ => Event::ShellReturned,
        };
        assert(transition(debug, stage, awaited) is Some);
    }
}

/// The boot actions, one by one.
spec fn boot_listed() -> Seq<Action> {
    seq![
        Action::Register(Capability::Notification),
        Action::Register(Capability::Store),
        Action::Register(Capability::Filesystem),
        Action::Launch,
    ]
}

/// What the setup hook has had done by the time it gives `answer`.
spec fn setup_listed(debug: bool, answer: Action) -> Seq<Action> {
    if debug {
        seq![Action::AttachLogging(LogLevel::Info), answer]
    } else {
        seq![answer]
    }
}

/// The histories at whose end the host's code awaits the shell.
spec fn awaiting_shell_listed(debug: bool, actions: Seq<Action>) -> bool {
    ||| actions =~= boot_listed()
    ||| actions =~= boot_listed() + setup_listed(debug, Action::CompleteSetup)
    ||| debug && actions =~= boot_listed() + setup_listed(debug, Action::FailSetup)
}

/// The history that leads to `stage`, written out.
spec fn history_by_stage(debug: bool, stage: Stage, actions: Seq<Action>) -> bool {
    match stage {
        Stage::Created => actions =~= Seq::empty(),
        Stage::Registering(Capability::Notification) => actions =~= boot_listed().take(1),
        Stage::Registering(Capability::Store) => actions =~= boot_listed().take(2),
        Stage::Registering(Capability::Filesystem) => actions =~= boot_listed().take(3),
        Stage::Launched => actions =~= boot_listed(),
        Stage::AttachingLogging => debug && actions =~= boot_listed().push(
            Action::AttachLogging(LogLevel::Info),
        ),
        Stage::SetupCompleted => actions =~= boot_listed() + setup_listed(
            debug,
            Action::CompleteSetup,
        ),
        Stage::SetupFailed => debug && actions =~= boot_listed() + setup_listed(
            debug,
            Action::FailSetup,
        ),
        Stage::Finished => actions.len() > 0 && actions.last() == Action::Exit
            && awaiting_shell_listed(debug, actions.drop_last()),
        Stage::Aborted => actions.len() > 0 && actions.last() == Action::Abort
            && awaiting_shell_listed(debug, actions.drop_last()),
    }
}

/// What stands at each place of a history that has led to `stage`.
spec fn history_by_place(debug: bool, stage: Stage, actions: Seq<Action>) -> bool {
    let attach = Action::AttachLogging(LogLevel::Info);
    &&& actions.len() <= 7
    &&& !debug ==> actions.len() <= 6
    &&& actions.len() > 0 ==> actions[0] == Action::Register(Capability::Notification)
    &&& actions.len() > 1 ==> actions[1] == Action::Register(Capability::Store)
    &&& actions.len() > 2 ==> actions[2] == Action::Register(Capability::Filesystem)
    &&& actions.len() > 3 ==> actions[3] == Action::Launch
    &&& actions.len() > 4 ==> {
        ||| debug && actions[4] == attach
        ||| !debug && actions[4] == Action::CompleteSetup
        ||| is_verdict(actions[4]) && actions.len() == 5
    }
    &&& actions.len() > 5 ==> {
        ||| actions[4] == attach && is_setup_answer(actions[5])
        ||| actions[4] == Action::CompleteSetup && is_verdict(actions[5]) && actions.len() == 6
    }
    &&& actions.len() > 6 ==> is_verdict(actions[6])
    &&& stage is Aborted <==> actions.len() > 0 && actions.last() is Abort
    &&& stage is Finished <==> actions.len() > 0 && actions.last() is Exit
}

/// [`boot_actions`] written out.
proof fn lemma_boot_actions()
    ensures
        boot_actions() =~= boot_listed(),
        boot_actions().len() == 4,
{
}

/// A place in a history is one of seven.
proof fn lemma_place(i: int)
    ensures
        0 <= i < 7 ==> i == 0 || i == 1 || i == 2 || i == 3 || i == 4 || i == 5 || i == 6,
{
}

/// Every history is the one that belongs to the stage it has led to.
proof fn lemma_history_by_stage(debug: bool, events: Seq<Event>)
    ensures
        history_by_stage(debug, stage_reached(debug, events), history(debug, events)),
    decreases events.len(),
{
    if events.len() > 0 {
        lemma_history_by_stage(debug, events.drop_last());
    }
}

/// Every history, place by place: the boot actions, then what the setup hook
/// had done, then the verdict, each part as far as the start has come.
proof fn lemma_history_by_place(debug: bool, events: Seq<Event>)
    ensures
        history_by_place(debug, stage_reached(debug, events), history(debug, events)),
{
    lemma_history_by_stage(debug, events);
    let actions = history(debug, events);
    let stage = stage_reached(debug, events);
    let boot = boot_listed();
    assert(boot.len() == 4 && boot[0] == Action::Register(Capability::Notification) && boot[1]
        == Action::Register(Capability::Store) && boot[2] == Action::Register(
        Capability::Filesystem,
    ) && boot[3] == Action::Launch);
    if stage is Finished || stage is Aborted {
        let before = actions.drop_last();
        assert(awaiting_shell_listed(debug, before));
        assert(forall|i: int| 0 <= i < before.len() ==> before[i] == actions[i]);
        assert(before[0] == boot[0] && before[1] == boot[1] && before[2] == boot[2] && before[3]
            == boot[3]);
    } else {
        assert(actions.len() >= 1 ==> actions[0] == boot[0]);
        assert(actions.len() >= 2 ==> actions[1] == boot[1]);
        assert(actions.len() >= 3 ==> actions[2] == boot[2]);
        assert(actions.len() >= 4 ==> actions[3] == boot[3]);
    }
}

} // verus!
