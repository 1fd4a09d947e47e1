//! The startup sequence as a state machine: the host reports an [`Event`],
//! the machine answers with the [`Action`] to perform next.
//!
//! The host owns everything that touches the GUI framework. It makes the
//! application builder, registers plug-ins on it, starts the shell and runs
//! the setup hook that the shell calls back. After each of these it reports
//! what happened, and does what the machine answers.

use vstd::prelude::*;

verus! {

/// A capability plug-in that every start of the shell registers.
#[derive(Clone, Copy, Debug, PartialEq, Eq, Structural)]
pub enum Capability {
    /// Desktop notifications.
    Notification,
    /// The persistent key-value store.
    Store,
    /// Access to the file system.
    Filesystem,
}

/// Verbosity of the logging plug-in, from silent to most verbose.
#[derive(Clone, Copy, Debug, PartialEq, Eq, Structural)]
pub enum LogLevel {
    /// Nothing is logged.
    Off,
    /// Errors only.
    Error,
    /// Warnings and what is graver.
    Warn,
    /// Information and what is graver.
    Info,
    /// Debugging output and what is graver.
    Debug,
    /// Everything.
    Trace,
}

/// How far a start has come.
#[derive(Clone, Copy, Debug, PartialEq, Eq, Structural)]
pub enum Stage {
    /// Nothing has happened yet: the application builder is still to be made.
    Created,
    /// The builder exists and this capability is being registered on it.
    Registering(Capability),
    /// Every capability is registered and the shell has been asked to run.
    Launched,
    /// The setup hook is running and waits for the logging plug-in.
    AttachingLogging,
    /// The setup hook has answered with success.
    SetupCompleted,
    /// The setup hook has handed on the failure of the logging plug-in.
    SetupFailed,
    /// The shell has returned without an error.
    Finished,
    /// The shell has failed and the process ends with the fatal message.
    Aborted,
}

/// What the host reports to the machine.
#[derive(Clone, Copy, Debug, PartialEq, Eq, Structural)]
pub enum Event {
    /// The application builder has been made.
    BuilderCreated,
    /// The capability asked for has been registered on the builder.
    CapabilityRegistered,
    /// The shell has called the setup hook.
    SetupEntered,
    /// The logging plug-in has been attached.
    LoggingAttached,
    /// The logging plug-in could not be attached.
    LoggingRejected,
    /// Running the shell has ended without an error.
    ShellReturned,
    /// Running the shell has ended with an error.
    ShellFailed,
}

/// What the machine asks the host to do.
#[derive(Clone, Copy, Debug, PartialEq, Eq, Structural)]
pub enum Action {
    /// Register this capability plug-in on the builder.
    Register(Capability),
    /// Install the setup hook and run the shell.
    Launch,
    /// Attach the logging plug-in to the running application at this level.
    AttachLogging(LogLevel),
    /// Answer the shell, from the setup hook, with success.
    CompleteSetup,
    /// Answer the shell, from the setup hook, with the error that the logging
    /// plug-in gave.
    FailSetup,
    /// Return to the caller: the shell is done.
    Exit,
    /// End the process at once with the fatal message.
    Abort,
}

/// The capabilities in the order in which they are registered.
pub open spec fn capability_order() -> Seq<Capability> {
    seq![Capability::Notification, Capability::Store, Capability::Filesystem]
}

/// The level at which logging is attached, where it is attached at all.
pub open spec fn logging_level() -> LogLevel {
    LogLevel::Info
}

/// The place of a capability in [`capability_order`].
pub open spec fn capability_index(capability: Capability) -> int {
    match capability {
        Capability::Notification => 0,
        Capability::Store => 1,
        Capability::Filesystem => 2,
    }
}

/// What follows once the capability at place `index` is registered: the next
/// capability in order, or the launch after the last one.
pub open spec fn after_registration(index: int) -> (Stage, Action) {
    if 0 <= index + 1 < capability_order().len() {
        let next = capability_order()[index + 1];
        (Stage::Registering(next), Action::Register(next))
    } else {
        (Stage::Launched, Action::Launch)
    }
}

/// Whether the host's code, and not the setup hook, is waiting for the shell:
/// only then can the shell's run come back.
pub open spec fn awaits_shell(stage: Stage) -> bool {
    stage is Launched || stage is SetupCompleted || stage is SetupFailed
}

/// The transition relation. In configuration `debug` (a development build)
/// and at `stage`, the report `event` leads to the stage and the action
/// given, or is not awaited there (`None`).
///
/// - The builder once made, the capabilities are registered one by one in
///   [`capability_order`], and then the shell is launched.
/// - The setup hook attaches logging at [`logging_level`] in a development
///   build and does nothing otherwise. It succeeds unless attaching failed,
///   and then it hands that failure on.
/// - When the shell's run comes back, an error aborts and anything else
///   exits, whatever the setup hook did.
pub open spec fn transition(debug: bool, stage: Stage, event: Event) -> Option<(Stage, Action)> {
    match event {
        Event::BuilderCreated => if stage is Created {
            Some(after_registration(-1))
        } else {
            None
        },
        Event::CapabilityRegistered => match stage {
            Stage::Registering(current) => Some(after_registration(capability_index(current))),
            _ => None,
        },
        Event::SetupEntered => if stage is Launched {
            if debug {
                Some((Stage::AttachingLogging, Action::AttachLogging(logging_level())))
            } else {
                Some((Stage::SetupCompleted, Action::CompleteSetup))
            }
        } else {
            None
        },
        Event::LoggingAttached => if stage is AttachingLogging {
            Some((Stage::SetupCompleted, Action::CompleteSetup))
        } else {
            None
        },
        Event::LoggingRejected => if stage is AttachingLogging {
            Some((Stage::SetupFailed, Action::FailSetup))
        } else {
            None
        },
        Event::ShellReturned => if awaits_shell(stage) {
            Some((Stage::Finished, Action::Exit))
        } else {
            None
        },
        Event::ShellFailed => if awaits_shell(stage) {
            Some((Stage::Aborted, Action::Abort))
        } else {
            None
        },
    }
}

/// The stages that a start in configuration `debug` can be in: the logging
/// plug-in is waited for, or has failed, in a development build only.
pub open spec fn stage_allowed(debug: bool, stage: Stage) -> bool {
    (stage is AttachingLogging || stage is SetupFailed) ==> debug
}

/// One start of the shell: its configuration and how far it has come.
#[derive(Clone, Copy, Debug, PartialEq, Eq)]
pub struct Startup {
    debug: bool,
    stage: Stage,
}

impl Startup {
    #[verifier::type_invariant]
    spec fn well_formed(self) -> bool {
        stage_allowed(self.debug, self.stage)
    }

    /// Whether this is the start of a development build.
    pub closed spec fn spec_debug(&self) -> bool {
        self.debug
    }

    /// How far the start has come.
    pub closed spec fn spec_stage(&self) -> Stage {
        self.stage
    }

    /// Whether this is the start of a development build.
    #[verifier::when_used_as_spec(spec_debug)]
    pub fn debug(&self) -> (debug: bool)
        ensures
            debug == self.spec_debug(),
    {
        self.debug
    }

    /// How far the start has come. It is always a stage that the configuration
    /// allows.
    #[verifier::when_used_as_spec(spec_stage)]
    pub fn stage(&self) -> (stage: Stage)
        ensures
            stage == self.spec_stage(),
            stage_allowed(self.spec_debug(), stage),
    {
        proof {
            use_type_invariant(self);
        }
        self.stage
    }

    /// A start on which nothing has happened yet.
    pub fn new(debug: bool) -> (startup: Startup)
        ensures
            startup.spec_debug() == debug,
            startup.spec_stage() == Stage::Created,
    {
        Startup { debug, stage: Stage::Created }
    }

    /// Takes the host's report and answers with what to do next.
    ///
    /// An event that the present stage awaits moves the machine on as
    /// [`transition`] says and yields its action. Any other event is refused:
    /// the answer is `None` and the machine stays as it was.
    pub fn step(&mut self, event: Event) -> (action: Option<Action>)
        ensures
            final(self).spec_debug() == old(self).spec_debug(),
            stage_allowed(final(self).spec_debug(), final(self).spec_stage()),
            match transition(old(self).spec_debug(), old(self).spec_stage(), event) {
                Some((stage, next)) => final(self).spec_stage() == stage && action == Some(next),
                None => final(self).spec_stage() == old(self).spec_stage() && action is None,
            },
    {
        proof {
            use_type_invariant(&*self);
        }
        let answer: Option<(Stage, Action)> = match event {
            Event::BuilderCreated => match self.stage {
                Stage::Created => Some(first_registration()),
                _ => None,
            },
            Event::CapabilityRegistered => match self.stage {
                Stage::Registering(current) => Some(next_registration(current)),
                _ => None,
            },
            Event::SetupEntered => match self.stage {
                Stage::Launched => if self.debug {
                    Some((Stage::AttachingLogging, Action::AttachLogging(LogLevel::Info)))
                } else {
                    Some((Stage::SetupCompleted, Action::CompleteSetup))
                },
                _ => None,
            },
            Event::LoggingAttached => match self.stage {
                Stage::AttachingLogging => Some((Stage::SetupCompleted, Action::CompleteSetup)),
                _ => None,
            },
            Event::LoggingRejected => match self.stage {
                Stage::AttachingLogging => Some((Stage::SetupFailed, Action::FailSetup)),
                _ => None,
            },
            Event::ShellReturned => match self.stage {
                Stage::Launched | Stage::SetupCompleted | Stage::SetupFailed => Some(
                    (Stage::Finished, Action::Exit),
                ),
                _ => None,
            },
            Event::ShellFailed => match self.stage {
                Stage::Launched | Stage::SetupCompleted | Stage::SetupFailed => Some(
                    (Stage::Aborted, Action::Abort),
                ),
                _ => None,
            },
        };
        match answer {
            Some((stage, next)) => {
                self.stage = stage;
                Some(next)
            },
            None => None,
        }
    }
}

/// The text of the fatal message.
pub open spec fn fatal_text() -> Seq<char> {
    "error while running tauri application"@
}

/// The message with which the process ends when the shell has failed: what
/// the host says when it performs [`Action::Abort`].
pub fn fatal_message() -> (message: &'static str)
    ensures
        message@ == fatal_text(),
{
    "error while running tauri application"
}

/// The registration that opens the sequence.
fn first_registration() -> (answer: (Stage, Action))
    ensures
        answer == after_registration(-1),
{
    (Stage::Registering(Capability::Notification), Action::Register(Capability::Notification))
}

/// The stage and action that follow the registration of `current`.
fn next_registration(current: Capability) -> (answer: (Stage, Action))
    ensures
        answer == after_registration(capability_index(current)),
{
    match current {
        Capability::Notification => (
            Stage::Registering(Capability::Store),
            Action::Register(Capability::Store),
        ),
        Capability::Store => (
            Stage::Registering(Capability::Filesystem),
            Action::Register(Capability::Filesystem),
        ),
        Capability::Filesystem => (Stage::Launched, Action::Launch),
    }
}

} // verus!
