use vstd::prelude::*;
use crate::flow::{
    actions_of, install_count, start_stage, valid_run, Action, DialogAnswer, Event, Stage,
};
use crate::install::{InstallError, ELEVATED_WAIT_MS, WAIT_TIMEOUT};
use crate::installer::{install_step, InstallAction, InstallEvent, InstallStage};

verus! {

/// A finished procedure accepts no further event.
proof fn lemma_finished_accepts_nothing(events: Seq<Event>)
    requires
        valid_run(Stage::Finished, events),
    ensures
        events.len() == 0,
        actions_of(Stage::Finished, events) == Seq::<Action>::empty(),
{
}

/// When a runtime is already installed, the procedure ends at once with
/// success: it shows no dialog and downloads nothing.
pub proof fn lemma_installed_runtime_finishes_at_once(try_as_admin: bool, events: Seq<Event>)
    requires
        valid_run(start_stage(try_as_admin), events),
        events.len() > 0,
        events[0] == (Event::VersionProbed { installed: true }),
    ensures
        events.len() == 1,
        actions_of(start_stage(try_as_admin), events) == seq![Action::Finish(Ok(()))],
        install_count(actions_of(start_stage(try_as_admin), events)) == 0,
{
    let rest = events.drop_first();
    lemma_finished_accepts_nothing(rest);
    let actions = actions_of(start_stage(try_as_admin), events);
    assert(actions =~= seq![Action::Finish(Ok(()))]);
    reveal_with_fuel(install_count, 2);
}

/// When the user declines the first prompt, the procedure ends with
/// `UserCancelled` and makes no install attempt, so nothing is downloaded.
pub proof fn lemma_declined_install_cancels(
    try_as_admin: bool,
    answer: DialogAnswer,
    events: Seq<Event>,
)
    requires
        answer == DialogAnswer::No || answer == DialogAnswer::Cancel,
        valid_run(start_stage(try_as_admin), events),
        events.len() >= 2,
        events[0] == (Event::VersionProbed { installed: false }),
        events[1] == Event::Answered(answer),
    ensures
        events.len() == 2,
        actions_of(start_stage(try_as_admin), events) == seq![
            Action::AskInstall,
            Action::Finish(Err(InstallError::UserCancelled)),
        ],
        install_count(actions_of(start_stage(try_as_admin), events)) == 0,
{
    let s1 = Stage::ConfirmingInstall { try_as_admin };
    let e1 = events.drop_first();
    let e2 = e1.drop_first();
    assert(e1[0] == events[1]);
    assert(valid_run(s1, e1));
    assert(valid_run(Stage::Finished, e2));
    lemma_finished_accepts_nothing(e2);
    assert(actions_of(s1, e1) =~= seq![Action::Finish(Err(InstallError::UserCancelled))]);
    assert(actions_of(start_stage(try_as_admin), events) =~= seq![
        Action::AskInstall,
        Action::Finish(Err(InstallError::UserCancelled)),
    ]);
    reveal_with_fuel(install_count, 3);
}

/// When an elevated install fails and the user declines the retry without
/// elevation, the procedure ends with that install's error, unchanged.
pub proof fn lemma_declined_fallback_keeps_error(
    error: InstallError,
    answer: DialogAnswer,
    events: Seq<Event>,
)
    requires
        answer == DialogAnswer::No || answer == DialogAnswer::Cancel,
        valid_run(start_stage(true), events),
        events.len() >= 4,
        events[0] == (Event::VersionProbed { installed: false }),
        events[1] == Event::Answered(DialogAnswer::Yes),
        events[2] == Event::InstallFinished(Err(error)),
        events[3] == Event::Answered(answer),
    ensures
        events.len() == 4,
        actions_of(start_stage(true), events) == seq![
            Action::AskInstall,
            Action::Install { as_admin: true },
            Action::AskFallback,
            Action::Finish(Err(error)),
        ],
        install_count(actions_of(start_stage(true), events)) == 1,
{
    let s1 = Stage::ConfirmingInstall { try_as_admin: true };
    let s2 = Stage::Installing { as_admin: true, is_retry: false };
    let s3 = Stage::ConfirmingFallback { error };
    let e1 = events.drop_first();
    let e2 = e1.drop_first();
    let e3 = e2.drop_first();
    let e4 = e3.drop_first();
    assert(e1[0] == events[1]);
    assert(e2[0] == events[2]);
    assert(e3[0] == events[3]);
    assert(valid_run(s1, e1));
    assert(valid_run(s2, e2));
    assert(valid_run(s3, e3));
    assert(valid_run(Stage::Finished, e4));
    lemma_finished_accepts_nothing(e4);
    assert(actions_of(s3, e3) =~= seq![Action::Finish(Err(error))]);
    assert(actions_of(s2, e2) =~= seq![Action::AskFallback, Action::Finish(Err(error))]);
    assert(actions_of(s1, e1) =~= seq![
        Action::Install { as_admin: true },
        Action::AskFallback,
        Action::Finish(Err(error)),
    ]);
    assert(actions_of(start_stage(true), events) =~= seq![
        Action::AskInstall,
        Action::Install { as_admin: true },
        Action::AskFallback,
        Action::Finish(Err(error)),
    ]);
    reveal_with_fuel(install_count, 5);
}

/// When an elevated install fails and the user accepts the retry without
/// elevation, exactly one more install is attempted, without elevation, and
/// its result ends the procedure.
pub proof fn lemma_accepted_fallback_retries_once(error: InstallError, events: Seq<Event>)
    requires
        valid_run(start_stage(true), events),
        events.len() >= 4,
        events[0] == (Event::VersionProbed { installed: false }),
        events[1] == Event::Answered(DialogAnswer::Yes),
        events[2] == Event::InstallFinished(Err(error)),
        events[3] == Event::Answered(DialogAnswer::Yes),
    ensures
        events.len() <= 5,
        events.len() == 4 ==> actions_of(start_stage(true), events) == seq![
            Action::AskInstall,
            Action::Install { as_admin: true },
            Action::AskFallback,
            Action::Install { as_admin: false },
        ],
        events.len() == 5 ==> actions_of(start_stage(true), events) == seq![
            Action::AskInstall,
            Action::Install { as_admin: true },
            Action::AskFallback,
            Action::Install { as_admin: false },
            Action::Finish(events[4]->InstallFinished_0),
        ],
        install_count(actions_of(start_stage(true), events).drop_first().drop_first()) == 1,
        install_count(actions_of(start_stage(true), events)) == 2,
{
    let s1 = Stage::ConfirmingInstall { try_as_admin: true };
    let s2 = Stage::Installing { as_admin: true, is_retry: false };
    let s3 = Stage::ConfirmingFallback { error };
    let s4 = Stage::Installing { as_admin: false, is_retry: true };
    let e1 = events.drop_first();
    let e2 = e1.drop_first();
    let e3 = e2.drop_first();
    let e4 = e3.drop_first();
    assert(e1[0] == events[1]);
    assert(e2[0] == events[2]);
    assert(e3[0] == events[3]);
    assert(valid_run(s1, e1));
    assert(valid_run(s2, e2));
    assert(valid_run(s3, e3));
    assert(valid_run(s4, e4));
    let tail = actions_of(s4, e4);
    if e4.len() > 0 {
        assert(e4[0] == events[4]);
        assert(valid_run(Stage::Finished, e4.drop_first()));
        lemma_finished_accepts_nothing(e4.drop_first());
        assert(tail =~= seq![Action::Finish(events[4]->InstallFinished_0)]);
    } else {
        assert(tail =~= Seq::<Action>::empty());
    }
    assert(actions_of(s3, e3) =~= seq![Action::Install { as_admin: false }] + tail);
    assert(actions_of(s2, e2) =~= seq![Action::AskFallback, Action::Install { as_admin: false }]
        + tail);
    assert(actions_of(s1, e1) =~= seq![
        Action::Install { as_admin: true },
        Action::AskFallback,
        Action::Install { as_admin: false },
    ] + tail);
    let all = actions_of(start_stage(true), events);
    assert(all =~= seq![
        Action::AskInstall,
        Action::Install { as_admin: true },
        Action::AskFallback,
        Action::Install { as_admin: false },
    ] + tail);
    assert(all.drop_first().drop_first() =~= seq![
        Action::AskFallback,
        Action::Install { as_admin: false },
    ] + tail);
    reveal_with_fuel(install_count, 6);
}

/// An elevated attempt waits 600000 ms for the installer, and a wait that
/// times out ends the attempt with `ElevationWaitTimeout`, not with success.
pub proof fn lemma_elevated_timeout_is_error(
    last_error: u32,
    launch: (InstallStage, InstallAction),
    r: (InstallStage, InstallAction),
)
    requires
        install_step(InstallStage::InitialisingCom, InstallEvent::ComInit { ok: true }, launch),
        install_step(
            InstallStage::RunningElevated,
            InstallEvent::ElevatedWait { code: WAIT_TIMEOUT, last_error },
            r,
        ),
    ensures
        launch.1 == (InstallAction::RunElevated { wait_ms: 600000 }),
        launch.0 == InstallStage::RunningElevated,
        r == (InstallStage::Done, InstallAction::Finish(Err(InstallError::ElevationWaitTimeout))),
        r.1 != InstallAction::Finish(Ok(())),
{
    assert(ELEVATED_WAIT_MS == 600000);
}

} // verus!
