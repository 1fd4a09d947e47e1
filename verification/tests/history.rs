use desktop_shell::startup::{Action, Capability, Event, LogLevel, Stage, Startup};

const EVERY_EVENT: [Event; 7] = [
    Event::BuilderCreated,
    Event::CapabilityRegistered,
    Event::SetupEntered,
    Event::LoggingAttached,
    Event::LoggingRejected,
    Event::ShellReturned,
    Event::ShellFailed,
];

const BOOT: [Action; 4] = [
    Action::Register(Capability::Notification),
    Action::Register(Capability::Store),
    Action::Register(Capability::Filesystem),
    Action::Launch,
];

/// The actions handed out while `events` are reported to a new start, and the
/// stage reached.
fn history(debug: bool, events: &[Event]) -> (Vec<Action>, Stage) {
    let mut startup = Startup::new(debug);
    let mut actions: Vec<Action> = Vec::new();
    for event in events {
        if let Some(action) = startup.step(*event) {
            actions.push(action);
        }
    }
    (actions, startup.stage())
}

/// Calls `check` on every sequence of events of length `length`.
fn for_every_sequence(length: usize, check: &mut dyn FnMut(&[Event])) {
    let mut places: Vec<usize> = vec![0; length];
    loop {
        let events: Vec<Event> = places.iter().map(|place| EVERY_EVENT[*place]).collect();
        check(&events);
        let mut at: usize = 0;
        while at < length && places[at] + 1 == EVERY_EVENT.len() {
            places[at] = 0;
            at += 1;
        }
        if at == length {
            return;
        }
        places[at] += 1;
    }
}

/// Calls `check` on the history of every sequence of at most six events, in
/// both configurations.
fn for_every_history(check: &dyn Fn(bool, &[Action], Stage)) {
    for debug in [false, true] {
        for length in 0..=6usize {
            for_every_sequence(length, &mut |events| {
                let (actions, stage) = history(debug, events);
                check(debug, &actions, stage);
            });
        }
    }
}

fn is_verdict(action: &Action) -> bool {
    matches!(action, Action::Exit | Action::Abort)
}

fn is_setup_answer(action: &Action) -> bool {
    matches!(action, Action::CompleteSetup | Action::FailSetup)
}

#[test]
fn every_history_begins_with_the_boot_actions() {
    for_every_history(&|_, actions, _| {
        for (place, action) in actions.iter().enumerate() {
            if place < BOOT.len() {
                assert_eq!(*action, BOOT[place]);
            } else {
                assert!(!matches!(action, Action::Register(_) | Action::Launch));
            }
        }
    });
}

#[test]
fn logging_is_attached_in_development_builds_only() {
    for_every_history(&|debug, actions, _| {
        for (place, action) in actions.iter().enumerate() {
            if let Action::AttachLogging(level) = action {
                assert!(debug);
                assert_eq!(*level, LogLevel::Info);
                assert_eq!(place, BOOT.len());
            }
            if *action == Action::FailSetup {
                assert!(debug);
                assert_eq!(place, BOOT.len() + 1);
                assert_eq!(actions[BOOT.len()], Action::AttachLogging(LogLevel::Info));
            }
        }
    });
}

#[test]
fn setup_hook_answers_at_most_once() {
    for_every_history(&|_, actions, _| {
        let answers: Vec<usize> = actions
            .iter()
            .enumerate()
            .filter(|(_, action)| is_setup_answer(action))
            .map(|(place, _)| place)
            .collect();
        assert!(answers.len() <= 1);
        for place in answers {
            assert!(place >= BOOT.len());
        }
    });
}

#[test]
fn nothing_follows_a_verdict() {
    for_every_history(&|_, actions, stage| {
        for (place, action) in actions.iter().enumerate() {
            if is_verdict(action) {
                assert_eq!(place + 1, actions.len());
            }
        }
        assert_eq!(stage == Stage::Aborted, actions.last() == Some(&Action::Abort));
        assert_eq!(stage == Stage::Finished, actions.last() == Some(&Action::Exit));
    });
}

#[test]
fn reachable_stages_are_allowed() {
    for_every_history(&|debug, _, stage| {
        if matches!(stage, Stage::AttachingLogging | Stage::SetupFailed) {
            assert!(debug);
        }
    });
}

#[test]
fn verdict_goes_by_the_shell_result_alone() {
    for debug in [false, true] {
        for length in 0..=5usize {
            for_every_sequence(length, &mut |events| {
                let mut startup = Startup::new(debug);
                for event in events {
                    startup.step(*event);
                }
                let awaits_shell: bool = matches!(
                    startup.stage(),
                    Stage::Launched | Stage::SetupCompleted | Stage::SetupFailed
                );
                for event in EVERY_EVENT {
                    let mut next = startup;
                    let answer = next.step(event);
                    assert_eq!(
                        answer == Some(Action::Abort),
                        awaits_shell && event == Event::ShellFailed
                    );
                    assert_eq!(
                        answer == Some(Action::Exit),
                        awaits_shell && event == Event::ShellReturned
                    );
                    if let Some(action) = answer {
                        assert_eq!(action == Action::Abort, next.stage() == Stage::Aborted);
                        assert_eq!(action == Action::Exit, next.stage() == Stage::Finished);
                    } else {
                        assert_eq!(next, startup);
                    }
                }
            });
        }
    }
}

#[test]
fn start_is_over_at_its_verdict_only() {
    for_every_history(&|debug, actions, stage| {
        let mut startup = Startup::new(debug);
        let mut replayed: Vec<Action> = Vec::new();
        // Bring a second start to the same stage by the history's own events.
        for action in actions {
            let event = match action {
                Action::Register(Capability::Notification) => Event::BuilderCreated,
                Action::Register(_) | Action::Launch => Event::CapabilityRegistered,
                Action::AttachLogging(_) => Event::SetupEntered,
                Action::CompleteSetup if debug => Event::LoggingAttached,
                Action::CompleteSetup => Event::SetupEntered,
                Action::FailSetup => Event::LoggingRejected,
                Action::Exit => Event::ShellReturned,
                Action::Abort => Event::ShellFailed,
            };
            replayed.push(startup.step(event).unwrap());
        }
        assert_eq!(replayed, actions);
        assert_eq!(startup.stage(), stage);
        let awaited: usize = EVERY_EVENT
            .iter()
            .filter(|event| {
                let mut next = startup;
                next.step(**event).is_some()
            })
            .count();
        let over: bool = matches!(stage, Stage::Finished | Stage::Aborted);
        assert_eq!(over, awaited == 0);
    });
}

#[test]
fn histories_have_seven_actions_at_most() {
    for_every_history(&|debug, actions, _| {
        assert!(actions.len() <= if debug { 7 } else { 6 });
    });
    let (actions, stage) = history(
        true,
        &[
            Event::BuilderCreated,
            Event::CapabilityRegistered,
            Event::CapabilityRegistered,
            Event::CapabilityRegistered,
            Event::SetupEntered,
            Event::LoggingRejected,
            Event::ShellFailed,
            Event::ShellReturned,
        ],
    );
    assert_eq!(actions.len(), 7);
    assert_eq!(stage, Stage::Aborted);
}
