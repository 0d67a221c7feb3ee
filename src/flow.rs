use vstd::prelude::*;
use crate::install::InstallError;

verus! {

/// Dialog result: the user chose "Yes".
pub const ID_YES: i32 = 6;

/// Dialog result: the user chose "No".
pub const ID_NO: i32 = 7;

/// Dialog result: the dialog was cancelled.
pub const ID_CANCEL: i32 = 2;

/// The answer to a yes/no confirmation dialog.
#[derive(Debug, Clone, Copy, PartialEq, Eq, Structural)]
pub enum DialogAnswer {
    Yes,
    No,
    Cancel,
    /// Any other result code of the dialog.
    Other(i32),
}

pub open spec fn answer_of(id: i32) -> DialogAnswer {
    if id == ID_YES {
        DialogAnswer::Yes
    } else if id == ID_NO {
        DialogAnswer::No
    } else if id == ID_CANCEL {
        DialogAnswer::Cancel
    } else {
        DialogAnswer::Other(id)
    }
}

/// Reads a dialog result code.
pub fn dialog_answer(id: i32) -> (r: DialogAnswer)
    ensures
        r == answer_of(id),
{
    if id == ID_YES {
        DialogAnswer::Yes
    } else if id == ID_NO {
        DialogAnswer::No
    } else if id == ID_CANCEL {
        DialogAnswer::Cancel
    } else {
        DialogAnswer::Other(id)
    }
}

/// Where the check-and-install procedure stands.
#[derive(Debug, Clone, PartialEq, Eq)]
pub enum Stage {
    /// Waiting for the installed version to be probed.
    Probing { try_as_admin: bool },
    /// Waiting for the user to confirm the installation.
    ConfirmingInstall { try_as_admin: bool },
    /// Waiting for an install attempt; `is_retry` marks the one attempt made
    /// without elevation after a failure.
    Installing { as_admin: bool, is_retry: bool },
    /// Waiting for the user to allow a retry without elevation after `error`.
    ConfirmingFallback { error: InstallError },
    /// The procedure has ended; no event is expected.
    Finished,
}

/// What happened outside since the last action.
#[derive(Debug, PartialEq, Eq)]
pub enum Event {
    VersionProbed { installed: bool },
    Answered(DialogAnswer),
    InstallFinished(Result<(), InstallError>),
}

/// What the caller is to do next.
#[derive(Debug, PartialEq, Eq)]
pub enum Action {
    /// Probe for an installed runtime version.
    ProbeVersion,
    /// Ask the user whether to install.
    AskInstall,
    /// Download and run the installer, with or without elevation.
    Install { as_admin: bool },
    /// Ask the user whether to retry without elevation.
    AskFallback,
    /// Stop with this result.
    Finish(Result<(), InstallError>),
}

/// Whether `stage` is waiting for an event of the kind of `event`.
pub open spec fn accepts(stage: Stage, event: Event) -> bool {
    match stage {
        Stage::Probing { .. } => event is VersionProbed,
        Stage::ConfirmingInstall { .. } => event is Answered,
        Stage::Installing { .. } => event is InstallFinished,
        Stage::ConfirmingFallback { .. } => event is Answered,
        Stage::Finished => false,
    }
}

/// The result of a declined or unreadable confirmation, given the error that
/// stands when the user declines.
pub open spec fn declined(answer: DialogAnswer, on_decline: InstallError) -> Action {
    match answer {
        DialogAnswer::Other(id) => Action::Finish(Err(InstallError::UnknownDialogResult { id })),
        _ => Action::Finish(Err(on_decline)),
    }
}

/// One step of the procedure, for an event that the stage accepts.
pub open spec fn next(stage: Stage, event: Event) -> (Stage, Action) {
    match stage {
        Stage::Probing { try_as_admin } => if event->installed {
            (Stage::Finished, Action::Finish(Ok(())))
        } else {
            (Stage::ConfirmingInstall { try_as_admin }, Action::AskInstall)
        },
        Stage::ConfirmingInstall { try_as_admin } => if event->Answered_0 == DialogAnswer::Yes {
            (
                Stage::Installing { as_admin: try_as_admin, is_retry: false },
                Action::Install { as_admin: try_as_admin },
            )
        } else {
            (Stage::Finished, declined(event->Answered_0, InstallError::UserCancelled))
        },
        Stage::Installing { is_retry, .. } => if is_retry || event->InstallFinished_0 is Ok {
            (Stage::Finished, Action::Finish(event->InstallFinished_0))
        } else {
            (
                Stage::ConfirmingFallback { error: event->InstallFinished_0->Err_0 },
                Action::AskFallback,
            )
        },
        Stage::ConfirmingFallback { error } => if event->Answered_0 == DialogAnswer::Yes {
            (Stage::Installing { as_admin: false, is_retry: true }, Action::Install { as_admin: false })
        } else {
            (Stage::Finished, declined(event->Answered_0, error))
        },
        Stage::Finished => (Stage::Finished, Action::ProbeVersion),
    }
}

/// The stage a procedure starts in.
pub open spec fn start_stage(try_as_admin: bool) -> Stage {
    Stage::Probing { try_as_admin }
}

/// Whether each event of `events` is accepted by the stage it reaches.
pub open spec fn valid_run(stage: Stage, events: Seq<Event>) -> bool
    decreases events.len(),
{
    events.len() == 0 || (accepts(stage, events[0]) && valid_run(
        next(stage, events[0]).0,
        events.drop_first(),
    ))
}

/// The actions asked for along a run of `events` from `stage`.
pub open spec fn actions_of(stage: Stage, events: Seq<Event>) -> Seq<Action>
    decreases events.len(),
{
    if events.len() == 0 {
        seq![]
    } else {
        seq![next(stage, events[0]).1] + actions_of(next(stage, events[0]).0, events.drop_first())
    }
}

/// How many install attempts `actions` holds.
pub open spec fn install_count(actions: Seq<Action>) -> nat
    decreases actions.len(),
{
    if actions.len() == 0 {
        0
    } else {
        (if actions[0] is Install {
            1nat
        } else {
            0nat
        }) + install_count(actions.drop_first())
    }
}

impl Stage {
    /// Starts the procedure: the first action is always the version probe.
    pub fn start(try_as_admin: bool) -> (r: (Stage, Action))
        ensures
            r.0 == start_stage(try_as_admin),
            r.1 == Action::ProbeVersion,
    {
        (Stage::Probing { try_as_admin }, Action::ProbeVersion)
    }

    /// Whether this stage is waiting for an event of the kind of `event`.
    pub fn accepts(&self, event: &Event) -> (r: bool)
        ensures
            r == accepts(*self, *event),
    {
        match self {
            Stage::Probing { .. } => matches!(event, Event::VersionProbed { .. }),
            Stage::ConfirmingInstall { .. } => matches!(event, Event::Answered(_)),
            Stage::Installing { .. } => matches!(event, Event::InstallFinished(_)),
            Stage::ConfirmingFallback { .. } => matches!(event, Event::Answered(_)),
            Stage::Finished => false,
        }
    }

    /// Takes one step: the stage reached and the action to perform.
    pub fn advance(self, event: Event) -> (r: (Stage, Action))
        requires
            accepts(self, event),
        ensures
            r == next(self, event),
    {
        match self {
            Stage::Probing { try_as_admin } => {
                let installed = match event {
                    Event::VersionProbed { installed } => installed,
                    _ => false,
                };
                if installed {
                    (Stage::Finished, Action::Finish(Ok(())))
                } else {
                    (Stage::ConfirmingInstall { try_as_admin }, Action::AskInstall)
                }
            },
            Stage::ConfirmingInstall { try_as_admin } => {
                let answer = match event {
                    Event::Answered(answer) => answer,
                    _ => DialogAnswer::Cancel,
                };
                match answer {
                    DialogAnswer::Yes => (
                        Stage::Installing { as_admin: try_as_admin, is_retry: false },
                        Action::Install { as_admin: try_as_admin },
                    ),
                    DialogAnswer::Other(id) => (
                        Stage::Finished,
                        Action::Finish(Err(InstallError::UnknownDialogResult { id })),
                    ),
                    _ => (Stage::Finished, Action::Finish(Err(InstallError::UserCancelled))),
                }
            },
            Stage::Installing { is_retry, .. } => {
                let result = match event {
                    Event::InstallFinished(result) => result,
                    _ => Ok(()),
                };
                if is_retry {
                    (Stage::Finished, Action::Finish(result))
                } else {
                    match result {
                        Err(error) => (Stage::ConfirmingFallback { error }, Action::AskFallback),
                        done => (Stage::Finished, Action::Finish(done)),
                    }
                }
            },
            Stage::ConfirmingFallback { error } => {
                let answer = match event {
                    Event::Answered(answer) => answer,
                    _ => DialogAnswer::Cancel,
                };
                match answer {
                    DialogAnswer::Yes => (
                        Stage::Installing { as_admin: false, is_retry: true },
                        Action::Install { as_admin: false },
                    ),
                    DialogAnswer::Other(id) => (
                        Stage::Finished,
                        Action::Finish(Err(InstallError::UnknownDialogResult { id })),
                    ),
                    _ => (Stage::Finished, Action::Finish(Err(error))),
                }
            },
            Stage::Finished => (Stage::Finished, Action::ProbeVersion),
        }
    }
}

} // verus!
