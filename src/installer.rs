use vstd::prelude::*;
use crate::install::{
    direct_run_outcome, elevated_wait_outcome, is_process_failure, launch_mode, launch_mode_spec,
    wait_outcome_spec, InstallError, LaunchMode, ELEVATED_WAIT_MS,
};

verus! {

/// Where one install attempt stands.
#[derive(Debug, Clone, PartialEq, Eq, Structural)]
pub enum InstallStage {
    /// Waiting for the bootstrapper to be downloaded.
    Downloading { as_admin: bool },
    /// Waiting for the target directory to be resolved.
    Resolving { as_admin: bool },
    /// Waiting for the bootstrapper to be written to disk.
    Writing { as_admin: bool },
    /// Waiting to learn whether the process already holds elevation.
    CheckingElevation { as_admin: bool },
    /// Waiting for a direct run of the installer to exit.
    RunningDirect,
    /// Waiting for the COM apartment to be initialised.
    InitialisingCom,
    /// Waiting for the elevated installer, or for its wait to time out.
    RunningElevated,
    /// The attempt has ended; no event is expected.
    Done,
}

/// What happened outside since the last install action.
#[derive(Debug, PartialEq, Eq)]
pub enum InstallEvent {
    Downloaded,
    DirResolved { ok: bool },
    Written { ok: bool, path: String },
    Elevation { elevated: bool },
    /// A direct run: whether it started, whether it succeeded, its exit code
    /// if the OS gave one, and its captured output.
    DirectRun {
        launched: bool,
        success: bool,
        exit_code: Option<i32>,
        stdout: Vec<u8>,
        stderr: Vec<u8>,
    },
    ComInit { ok: bool },
    /// The code the wait on the elevated installer returned, and the OS error
    /// read right after it.
    ElevatedWait { code: u32, last_error: u32 },
}

/// What the caller is to do next within an install attempt.
#[derive(Debug, PartialEq, Eq)]
pub enum InstallAction {
    /// Fetch the bootstrapper from `DOWNLOAD_URL`.
    Download,
    /// Resolve the directory given by `installer_dir`.
    ResolveDir,
    /// Write the bootstrapper as `INSTALLER_FILE_NAME` into that directory.
    WriteInstaller,
    /// Ask whether the process already holds elevation.
    CheckElevation,
    /// Run the installer directly with `INSTALLER_ARGUMENT` and wait for it.
    RunDirect,
    /// Initialise an apartment-threaded COM apartment.
    InitCom,
    /// Launch the installer through the elevation verb and wait at most
    /// `wait_ms` milliseconds.
    RunElevated { wait_ms: u32 },
    /// Stop with this result.
    Finish(Result<(), InstallError>),
}

/// Whether `stage` is waiting for an event of the kind of `event`.
pub open spec fn install_accepts(stage: InstallStage, event: InstallEvent) -> bool {
    match stage {
        InstallStage::Downloading { .. } => event is Downloaded,
        InstallStage::Resolving { .. } => event is DirResolved,
        InstallStage::Writing { .. } => event is Written,
        InstallStage::CheckingElevation { .. } => event is Elevation,
        InstallStage::RunningDirect => event is DirectRun,
        InstallStage::InitialisingCom => event is ComInit,
        InstallStage::RunningElevated => event is ElevatedWait,
        InstallStage::Done => false,
    }
}

/// Whether `r` is the step taken from `stage` on `event`: the stage reached
/// and the action asked for.
pub open spec fn install_step(
    stage: InstallStage,
    event: InstallEvent,
    r: (InstallStage, InstallAction),
) -> bool {
    match stage {
        InstallStage::Downloading { as_admin } => r == (
            InstallStage::Resolving { as_admin },
            InstallAction::ResolveDir,
        ),
        InstallStage::Resolving { as_admin } => if event->DirResolved_ok {
            r == (InstallStage::Writing { as_admin }, InstallAction::WriteInstaller)
        } else {
            r == (InstallStage::Done, InstallAction::Finish(Err(InstallError::PathResolution)))
        },
        InstallStage::Writing { as_admin } => if event->Written_ok {
            r == (InstallStage::CheckingElevation { as_admin }, InstallAction::CheckElevation)
        } else {
            r == (
                InstallStage::Done,
                InstallAction::Finish(Err(InstallError::Write { path: event->path })),
            )
        },
        InstallStage::CheckingElevation { as_admin } => if launch_mode_spec(
            as_admin,
            event->elevated,
        ) == LaunchMode::Direct {
            r == (InstallStage::RunningDirect, InstallAction::RunDirect)
        } else {
            r == (InstallStage::InitialisingCom, InstallAction::InitCom)
        },
        InstallStage::RunningDirect => r.0 == InstallStage::Done && if !event->launched {
            r.1 == InstallAction::Finish(Err(InstallError::Launch))
        } else if event->success {
            r.1 == InstallAction::Finish(Ok(()))
        } else {
            r.1 is Finish && is_process_failure(
                r.1->Finish_0,
                event->exit_code,
                event->stdout@,
                event->stderr@,
            )
        },
        InstallStage::InitialisingCom => if event->ComInit_ok {
            r == (InstallStage::RunningElevated, InstallAction::RunElevated { wait_ms: ELEVATED_WAIT_MS })
        } else {
            r == (InstallStage::Done, InstallAction::Finish(Err(InstallError::ComInit)))
        },
        InstallStage::RunningElevated => r == (
            InstallStage::Done,
            InstallAction::Finish(wait_outcome_spec(event->code, event->last_error)),
        ),
        InstallStage::Done => false,
    }
}

impl InstallStage {
    /// Starts an install attempt, with elevation requested when `as_admin`:
    /// the first action is always the download.
    pub fn start(as_admin: bool) -> (r: (InstallStage, InstallAction))
        ensures
            r == (InstallStage::Downloading { as_admin }, InstallAction::Download),
    {
        (InstallStage::Downloading { as_admin }, InstallAction::Download)
    }

    /// Whether this stage is waiting for an event of the kind of `event`.
    pub fn accepts(&self, event: &InstallEvent) -> (r: bool)
        ensures
            r == install_accepts(*self, *event),
    {
        match self {
            InstallStage::Downloading { .. } => matches!(event, InstallEvent::Downloaded),
            InstallStage::Resolving { .. } => matches!(event, InstallEvent::DirResolved { .. }),
            InstallStage::Writing { .. } => matches!(event, InstallEvent::Written { .. }),
            InstallStage::CheckingElevation { .. } => matches!(event, InstallEvent::Elevation { .. }),
            InstallStage::RunningDirect => matches!(event, InstallEvent::DirectRun { .. }),
            InstallStage::InitialisingCom => matches!(event, InstallEvent::ComInit { .. }),
            InstallStage::RunningElevated => matches!(event, InstallEvent::ElevatedWait { .. }),
            InstallStage::Done => false,
        }
    }

    /// Takes one step: the stage reached and the action to perform.
    pub fn advance(self, event: InstallEvent) -> (r: (InstallStage, InstallAction))
        requires
            install_accepts(self, event),
        ensures
            install_step(self, event, r),
    {
        match self {
            InstallStage::Downloading { as_admin } => (
                InstallStage::Resolving { as_admin },
                InstallAction::ResolveDir,
            ),
            InstallStage::Resolving { as_admin } => {
                let ok = match event {
                    InstallEvent::DirResolved { ok } => ok,
                    _ => false,
                };
                if ok {
                    (InstallStage::Writing { as_admin }, InstallAction::WriteInstaller)
                } else {
                    (InstallStage::Done, InstallAction::Finish(Err(InstallError::PathResolution)))
                }
            },
            InstallStage::Writing { as_admin } => match event {
                InstallEvent::Written { ok, path } => {
                    if ok {
                        (InstallStage::CheckingElevation { as_admin }, InstallAction::CheckElevation)
                    } else {
                        (InstallStage::Done, InstallAction::Finish(Err(InstallError::Write { path })))
                    }
                },
                _ => (InstallStage::Done, InstallAction::Download),
            },
            InstallStage::CheckingElevation { as_admin } => {
                let elevated = match event {
                    InstallEvent::Elevation { elevated } => elevated,
                    _ => false,
                };
                match launch_mode(as_admin, elevated) {
                    LaunchMode::Direct => (InstallStage::RunningDirect, InstallAction::RunDirect),
                    LaunchMode::Elevated => (InstallStage::InitialisingCom, InstallAction::InitCom),
                }
            },
            InstallStage::RunningDirect => match event {
                InstallEvent::DirectRun { launched, success, exit_code, stdout, stderr } => {
                    if !launched {
                        (InstallStage::Done, InstallAction::Finish(Err(InstallError::Launch)))
                    } else {
                        let outcome = direct_run_outcome(
                            success,
                            exit_code,
                            stdout.as_slice(),
                            stderr.as_slice(),
                        );
                        (InstallStage::Done, InstallAction::Finish(outcome))
                    }
                },
                _ => (InstallStage::Done, InstallAction::Download),
            },
            InstallStage::InitialisingCom => {
                let ok = match event {
                    InstallEvent::ComInit { ok } => ok,
                    _ => false,
                };
                if ok {
                    (
                        InstallStage::RunningElevated,
                        InstallAction::RunElevated { wait_ms: ELEVATED_WAIT_MS },
                    )
                } else {
                    (InstallStage::Done, InstallAction::Finish(Err(InstallError::ComInit)))
                }
            },
            InstallStage::RunningElevated => {
                let (code, last_error) = match event {
                    InstallEvent::ElevatedWait { code, last_error } => (code, last_error),
                    _ => (0, 0),
                };
                (InstallStage::Done, InstallAction::Finish(elevated_wait_outcome(code, last_error)))
            },
            InstallStage::Done => (InstallStage::Done, InstallAction::Download),
        }
    }
}

} // verus!
