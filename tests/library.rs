use webview2autoinstall::flow::{dialog_answer, ID_CANCEL, ID_NO, ID_YES};
use webview2autoinstall::install::{
    direct_run_outcome, elevated_wait_outcome, elevation_from_token, installer_dir, launch_mode,
    text_or_empty, ELEVATED_WAIT_MS, FALLBACK_DIR, WAIT_ABANDONED, WAIT_FAILED, WAIT_OBJECT_0,
    WAIT_TIMEOUT,
};
use webview2autoinstall::installer::{InstallAction, InstallEvent, InstallStage};
use webview2autoinstall::{Action, DialogAnswer, Event, InstallError, LaunchMode, Stage, WString};

#[test]
fn wide_string_ascii_is_nul_terminated() {
    let w = WString::new("ab");
    assert_eq!(w.as_ptr(), Some(&[97u16, 98, 0][..]));
}

#[test]
fn wide_string_empty_is_single_nul() {
    let w = WString::new("");
    assert_eq!(w.as_ptr(), Some(&[0u16][..]));
}

#[test]
fn wide_string_none_is_null() {
    assert_eq!(WString::from_opt_str(None).as_ptr(), None);
    assert_eq!(WString::default().as_ptr(), None);
}

#[test]
fn wide_string_uses_surrogate_pairs() {
    let w = WString::from_opt_str(Some("a\u{1F600}\u{e9}"));
    assert_eq!(w.as_ptr(), Some(&[0x61u16, 0xD83D, 0xDE00, 0xE9, 0][..]));
}

#[test]
fn wide_string_matches_std_encoding() {
    let s = "Require WebView2 Runtime \u{10000}\u{10FFFF}\u{FFFF}";
    let mut expected: Vec<u16> = s.encode_utf16().collect();
    expected.push(0);
    assert_eq!(WString::new(s).as_ptr(), Some(&expected[..]));
}

#[test]
fn launch_mode_asks_for_elevation_only_when_missing() {
    assert_eq!(launch_mode(false, false), LaunchMode::Direct);
    assert_eq!(launch_mode(false, true), LaunchMode::Direct);
    assert_eq!(launch_mode(true, true), LaunchMode::Direct);
    assert_eq!(launch_mode(true, false), LaunchMode::Elevated);
}

#[test]
fn elevation_query_failure_counts_as_not_elevated() {
    assert!(elevation_from_token(true, true, 1));
    assert!(!elevation_from_token(true, true, 0));
    assert!(!elevation_from_token(false, true, 1));
    assert!(!elevation_from_token(true, false, 1));
}

#[test]
fn installer_dir_falls_back_to_current_dir() {
    assert_eq!(installer_dir(Some("C:\\Temp".to_string())), "C:\\Temp");
    assert_eq!(installer_dir(None), FALLBACK_DIR);
    assert_eq!(installer_dir(None), "./");
}

#[test]
fn elevated_wait_codes_map_to_outcomes() {
    assert_eq!(elevated_wait_outcome(WAIT_OBJECT_0, 0), Ok(()));
    assert_eq!(elevated_wait_outcome(WAIT_ABANDONED, 0), Err(InstallError::ElevationWaitAbandoned));
    assert_eq!(
        elevated_wait_outcome(WAIT_FAILED, 5),
        Err(InstallError::ElevationWaitFailed { os_error: 5 })
    );
    assert_eq!(
        elevated_wait_outcome(7, 0),
        Err(InstallError::ElevationWaitUnknown { code: 7 })
    );
}

#[test]
fn elevated_wait_timeout_is_an_error() {
    assert_eq!(ELEVATED_WAIT_MS, 600000);
    assert_eq!(WAIT_TIMEOUT, 0x102);
    assert_eq!(elevated_wait_outcome(WAIT_TIMEOUT, 0), Err(InstallError::ElevationWaitTimeout));
}

#[test]
fn output_text_decodes_utf8_and_drops_invalid() {
    assert_eq!(text_or_empty(b"done"), "done");
    assert_eq!(text_or_empty("\u{e9}t\u{e9}".as_bytes()), "\u{e9}t\u{e9}");
    assert_eq!(text_or_empty(&[0x66, 0xff, 0x66]), "");
    assert_eq!(text_or_empty(&[]), "");
}

#[test]
fn direct_run_outcome_reports_failure_details() {
    assert_eq!(direct_run_outcome(true, Some(0), b"x", b"y"), Ok(()));
    assert_eq!(
        direct_run_outcome(false, Some(3), b"out", b"err"),
        Err(InstallError::ProcessFailed {
            exit_code: 3,
            stdout: "out".to_string(),
            stderr: "err".to_string(),
        })
    );
    assert_eq!(
        direct_run_outcome(false, None, &[0xff], b""),
        Err(InstallError::ProcessFailed {
            exit_code: 1,
            stdout: String::new(),
            stderr: String::new(),
        })
    );
}

#[test]
fn dialog_codes_are_read() {
    assert_eq!(dialog_answer(ID_YES), DialogAnswer::Yes);
    assert_eq!(dialog_answer(ID_NO), DialogAnswer::No);
    assert_eq!(dialog_answer(ID_CANCEL), DialogAnswer::Cancel);
    assert_eq!(dialog_answer(6), DialogAnswer::Yes);
    assert_eq!(dialog_answer(7), DialogAnswer::No);
    assert_eq!(dialog_answer(2), DialogAnswer::Cancel);
    assert_eq!(dialog_answer(42), DialogAnswer::Other(42));
}

#[test]
fn installed_runtime_short_circuits() {
    let (stage, action) = Stage::start(true);
    assert_eq!(action, Action::ProbeVersion);
    let event = Event::VersionProbed { installed: true };
    assert!(stage.accepts(&event));
    let (stage, action) = stage.advance(event);
    assert_eq!(action, Action::Finish(Ok(())));
    assert_eq!(stage, Stage::Finished);
    assert!(!stage.accepts(&Event::Answered(DialogAnswer::Yes)));
}

#[test]
fn declined_prompt_cancels_without_install() {
    for answer in [DialogAnswer::No, DialogAnswer::Cancel] {
        let (stage, _) = Stage::start(true);
        let (stage, action) = stage.advance(Event::VersionProbed { installed: false });
        assert_eq!(action, Action::AskInstall);
        let (stage, action) = stage.advance(Event::Answered(answer));
        assert_eq!(action, Action::Finish(Err(InstallError::UserCancelled)));
        assert_eq!(stage, Stage::Finished);
    }
}

#[test]
fn unknown_dialog_result_is_reported() {
    let (stage, _) = Stage::start(false);
    let (stage, _) = stage.advance(Event::VersionProbed { installed: false });
    let (_, action) = stage.advance(Event::Answered(DialogAnswer::Other(11)));
    assert_eq!(action, Action::Finish(Err(InstallError::UnknownDialogResult { id: 11 })));
}

#[test]
fn declined_fallback_returns_original_error() {
    let (stage, _) = Stage::start(true);
    let (stage, _) = stage.advance(Event::VersionProbed { installed: false });
    let (stage, action) = stage.advance(Event::Answered(DialogAnswer::Yes));
    assert_eq!(action, Action::Install { as_admin: true });
    let error = InstallError::ElevationWaitTimeout;
    let (stage, action) = stage.advance(Event::InstallFinished(Err(error.clone())));
    assert_eq!(action, Action::AskFallback);
    let (stage, action) = stage.advance(Event::Answered(DialogAnswer::No));
    assert_eq!(action, Action::Finish(Err(error)));
    assert_eq!(stage, Stage::Finished);
}

#[test]
fn accepted_fallback_retries_once_without_elevation() {
    let mut installs: u32 = 0;
    let (stage, _) = Stage::start(true);
    let (stage, _) = stage.advance(Event::VersionProbed { installed: false });
    let (stage, action) = stage.advance(Event::Answered(DialogAnswer::Yes));
    if let Action::Install { .. } = action {
        installs += 1;
    }
    let (stage, _) = stage.advance(Event::InstallFinished(Err(InstallError::ComInit)));
    let (stage, action) = stage.advance(Event::Answered(DialogAnswer::Yes));
    assert_eq!(action, Action::Install { as_admin: false });
    installs += 1;
    let failure = InstallError::Launch;
    let (stage, action) = stage.advance(Event::InstallFinished(Err(failure.clone())));
    assert_eq!(action, Action::Finish(Err(failure)));
    assert_eq!(stage, Stage::Finished);
    assert_eq!(installs, 2);
}

#[test]
fn first_install_success_finishes() {
    let (stage, _) = Stage::start(false);
    let (stage, _) = stage.advance(Event::VersionProbed { installed: false });
    let (stage, action) = stage.advance(Event::Answered(DialogAnswer::Yes));
    assert_eq!(action, Action::Install { as_admin: false });
    let (_, action) = stage.advance(Event::InstallFinished(Ok(())));
    assert_eq!(action, Action::Finish(Ok(())));
}

fn run_to_elevation(as_admin: bool, elevated: bool) -> (InstallStage, InstallAction) {
    let (stage, action) = InstallStage::start(as_admin);
    assert_eq!(action, InstallAction::Download);
    let (stage, action) = stage.advance(InstallEvent::Downloaded);
    assert_eq!(action, InstallAction::ResolveDir);
    let (stage, action) = stage.advance(InstallEvent::DirResolved { ok: true });
    assert_eq!(action, InstallAction::WriteInstaller);
    let (stage, action) =
        stage.advance(InstallEvent::Written { ok: true, path: "x".to_string() });
    assert_eq!(action, InstallAction::CheckElevation);
    stage.advance(InstallEvent::Elevation { elevated })
}

#[test]
fn install_attempt_runs_directly_without_admin_request() {
    let (stage, action) = run_to_elevation(false, false);
    assert_eq!(action, InstallAction::RunDirect);
    let (stage, action) = stage.advance(InstallEvent::DirectRun {
        launched: true,
        success: true,
        exit_code: Some(0),
        stdout: vec![],
        stderr: vec![],
    });
    assert_eq!(action, InstallAction::Finish(Ok(())));
    assert_eq!(stage, InstallStage::Done);
}

#[test]
fn install_attempt_runs_directly_when_already_elevated() {
    let (_, action) = run_to_elevation(true, true);
    assert_eq!(action, InstallAction::RunDirect);
}

#[test]
fn install_attempt_reports_direct_failures() {
    let (stage, _) = run_to_elevation(false, false);
    let (_, action) = stage.advance(InstallEvent::DirectRun {
        launched: true,
        success: false,
        exit_code: None,
        stdout: b"o".to_vec(),
        stderr: b"e".to_vec(),
    });
    assert_eq!(
        action,
        InstallAction::Finish(Err(InstallError::ProcessFailed {
            exit_code: 1,
            stdout: "o".to_string(),
            stderr: "e".to_string(),
        }))
    );
    let (stage, _) = run_to_elevation(false, false);
    let (_, action) = stage.advance(InstallEvent::DirectRun {
        launched: false,
        success: false,
        exit_code: None,
        stdout: vec![],
        stderr: vec![],
    });
    assert_eq!(action, InstallAction::Finish(Err(InstallError::Launch)));
}

#[test]
fn install_attempt_elevated_timeout_is_an_error() {
    let (stage, action) = run_to_elevation(true, false);
    assert_eq!(action, InstallAction::InitCom);
    let (stage, action) = stage.advance(InstallEvent::ComInit { ok: true });
    assert_eq!(action, InstallAction::RunElevated { wait_ms: 600000 });
    let (stage, action) =
        stage.advance(InstallEvent::ElevatedWait { code: WAIT_TIMEOUT, last_error: 0 });
    assert_eq!(action, InstallAction::Finish(Err(InstallError::ElevationWaitTimeout)));
    assert_eq!(stage, InstallStage::Done);
}

#[test]
fn install_attempt_elevated_success() {
    let (stage, _) = run_to_elevation(true, false);
    let (stage, _) = stage.advance(InstallEvent::ComInit { ok: true });
    let (_, action) = stage.advance(InstallEvent::ElevatedWait { code: WAIT_OBJECT_0, last_error: 0 });
    assert_eq!(action, InstallAction::Finish(Ok(())));
}

#[test]
fn install_attempt_reports_com_failure() {
    let (stage, _) = run_to_elevation(true, false);
    let (_, action) = stage.advance(InstallEvent::ComInit { ok: false });
    assert_eq!(action, InstallAction::Finish(Err(InstallError::ComInit)));
}

#[test]
fn install_attempt_reports_path_and_write_failures() {
    let (stage, _) = InstallStage::start(true);
    let (stage, _) = stage.advance(InstallEvent::Downloaded);
    assert!(stage.accepts(&InstallEvent::DirResolved { ok: false }));
    assert!(!stage.accepts(&InstallEvent::Downloaded));
    let (_, action) = stage.advance(InstallEvent::DirResolved { ok: false });
    assert_eq!(action, InstallAction::Finish(Err(InstallError::PathResolution)));

    let (stage, _) = InstallStage::start(true);
    let (stage, _) = stage.advance(InstallEvent::Downloaded);
    let (stage, _) = stage.advance(InstallEvent::DirResolved { ok: true });
    let (_, action) = stage.advance(InstallEvent::Written { ok: false, path: "C:\\t\\s.exe".to_string() });
    assert_eq!(
        action,
        InstallAction::Finish(Err(InstallError::Write { path: "C:\\t\\s.exe".to_string() }))
    );
}
