use vstd::prelude::*;
use vstd::utf8::{decode_utf8, valid_utf8};

verus! {

/// Where the runtime's bootstrapper is downloaded from.
pub const DOWNLOAD_URL: &'static str = "https://go.microsoft.com/fwlink/p/?LinkId=2124703";

/// The file name under which the bootstrapper is stored.
pub const INSTALLER_FILE_NAME: &'static str = "MicrosoftEdgeWebview2Setup.exe";

/// The argument that asks the bootstrapper for an install.
pub const INSTALLER_ARGUMENT: &'static str = "/install";

/// The shell verb that requests elevation.
pub const ELEVATION_VERB: &'static str = "runas";

/// The directory used when the temporary-directory variable is unset.
pub const FALLBACK_DIR: &'static str = "./";

/// How long the elevated installer is waited for, in milliseconds (ten minutes).
pub const ELEVATED_WAIT_MS: u32 = 600000;

/// Wait result: the process ended.
pub const WAIT_OBJECT_0: u32 = 0;

/// Wait result: the waited-on object was abandoned.
pub const WAIT_ABANDONED: u32 = 0x80;

/// Wait result: the timeout elapsed first.
pub const WAIT_TIMEOUT: u32 = 0x102;

/// Wait result: the wait itself failed.
pub const WAIT_FAILED: u32 = 0xFFFF_FFFF;

/// Why an installation did not succeed.
#[derive(Debug, Clone, PartialEq, Eq)]
pub enum InstallError {
    /// Neither the temporary directory nor the current one could be resolved.
    PathResolution,
    /// The downloaded installer could not be written to `path`.
    Write { path: String },
    /// The installer process could not be started.
    Launch,
    /// The installer ran and reported failure.
    ProcessFailed { exit_code: i32, stdout: String, stderr: String },
    /// The COM apartment could not be initialised.
    ComInit,
    /// The wait on the elevated installer was abandoned.
    ElevationWaitAbandoned,
    /// The elevated installer did not finish within the allowed time.
    ElevationWaitTimeout,
    /// The wait on the elevated installer failed with the given OS error.
    ElevationWaitFailed { os_error: u32 },
    /// The wait returned a code that has no meaning here.
    ElevationWaitUnknown { code: u32 },
    /// The user declined the installation.
    UserCancelled,
    /// A confirmation dialog returned an answer that has no meaning here.
    UnknownDialogResult { id: i32 },
}

/// How the installer is started.
#[derive(Debug, Clone, Copy, PartialEq, Eq, Structural)]
pub enum LaunchMode {
    /// Run directly and wait for it to exit.
    Direct,
    /// Run through an elevation request and wait at most `ELEVATED_WAIT_MS`.
    Elevated,
}

/// The launch mode for a request: elevation is asked for only when wanted
/// and not already held.
pub open spec fn launch_mode_spec(as_admin: bool, already_elevated: bool) -> LaunchMode {
    if !as_admin || already_elevated {
        LaunchMode::Direct
    } else {
        LaunchMode::Elevated
    }
}

pub fn launch_mode(as_admin: bool, already_elevated: bool) -> (r: LaunchMode)
    ensures
        r == launch_mode_spec(as_admin, already_elevated),
{
    if !as_admin || already_elevated {
        LaunchMode::Direct
    } else {
        LaunchMode::Elevated
    }
}

/// Whether the process token reports elevation: any failed step of the query
/// counts as not elevated.
pub fn elevation_from_token(token_opened: bool, query_succeeded: bool, token_is_elevated: u32) -> (r:
    bool)
    ensures
        r == (token_opened && query_succeeded && token_is_elevated != 0),
{
    token_opened && query_succeeded && token_is_elevated != 0
}

/// The directory the installer is written to: the temporary directory when
/// the environment names one, else the current directory.
pub fn installer_dir(temp_var: Option<String>) -> (r: String)
    ensures
        r@ == (match temp_var {
            Some(t) => t@,
            None => FALLBACK_DIR@,
        }),
{
    match temp_var {
        Some(t) => t,
        None => FALLBACK_DIR.to_owned(),
    }
}

/// The outcome of an elevated launch for the code its wait returned;
/// `last_error` is the OS error read right after a failed wait.
pub open spec fn wait_outcome_spec(code: u32, last_error: u32) -> Result<(), InstallError> {
    if code == WAIT_ABANDONED {
        Err(InstallError::ElevationWaitAbandoned)
    } else if code == WAIT_OBJECT_0 {
        Ok(())
    } else if code == WAIT_TIMEOUT {
        Err(InstallError::ElevationWaitTimeout)
    } else if code == WAIT_FAILED {
        Err(InstallError::ElevationWaitFailed { os_error: last_error })
    } else {
        Err(InstallError::ElevationWaitUnknown { code })
    }
}

pub fn elevated_wait_outcome(code: u32, last_error: u32) -> (r: Result<(), InstallError>)
    ensures
        r == wait_outcome_spec(code, last_error),
        r is Ok <==> code == WAIT_OBJECT_0,
        code == WAIT_TIMEOUT ==> r == Err::<(), InstallError>(InstallError::ElevationWaitTimeout),
{
    if code == WAIT_ABANDONED {
        Err(InstallError::ElevationWaitAbandoned)
    } else if code == WAIT_OBJECT_0 {
        Ok(())
    } else if code == WAIT_TIMEOUT {
        Err(InstallError::ElevationWaitTimeout)
    } else if code == WAIT_FAILED {
        Err(InstallError::ElevationWaitFailed { os_error: last_error })
    } else {
        Err(InstallError::ElevationWaitUnknown { code })
    }
}

/// Output bytes as text: their UTF-8 decoding, or nothing when they are not
/// valid UTF-8.
pub open spec fn text_or_empty_spec(b: Seq<u8>) -> Seq<char> {
    if valid_utf8(b) {
        decode_utf8(b)
    } else {
        seq![]
    }
}

/// Relies on std::str::from_utf8: `Ok` exactly for valid UTF-8, holding the
/// decoded characters.
#[verifier::external_body]
fn utf8_str(b: &[u8]) -> (r: Option<&str>)
    ensures
        r is Some <==> valid_utf8(b@),
        r matches Some(s) ==> s@ == decode_utf8(b@),
{
    match std::str::from_utf8(b) {
        Ok(s) => Some(s),
        Err(_) => None,
    }
}

pub fn text_or_empty(b: &[u8]) -> (r: String)
    ensures
        r@ == text_or_empty_spec(b@),
{
    match utf8_str(b) {
        Some(s) => s.to_owned(),
        None => String::new(),
    }
}

/// Whether `r` is the failure reported for an installer that exited
/// unsuccessfully with `exit_code` (1 when the OS gave none) and the given
/// output.
pub open spec fn is_process_failure(
    r: Result<(), InstallError>,
    exit_code: Option<i32>,
    stdout: Seq<u8>,
    stderr: Seq<u8>,
) -> bool {
    match r {
        Err(InstallError::ProcessFailed { exit_code: c, stdout: o, stderr: e }) => c == (match exit_code {
            Some(x) => x,
            None => 1i32,
        }) && o@ == text_or_empty_spec(stdout) && e@ == text_or_empty_spec(stderr),
        _ => false,
    }
}

/// The outcome of a direct run of the installer, from its exit status and
/// captured output.
pub fn direct_run_outcome(success: bool, exit_code: Option<i32>, stdout: &[u8], stderr: &[u8]) -> (r:
    Result<(), InstallError>)
    ensures
        success ==> r == Ok::<(), InstallError>(()),
        !success ==> is_process_failure(r, exit_code, stdout@, stderr@),
{
    if success {
        Ok(())
    } else {
        let code: i32 = match exit_code {
            Some(x) => x,
            None => 1,
        };
        Err(
            InstallError::ProcessFailed {
                exit_code: code,
                stdout: text_or_empty(stdout),
                stderr: text_or_empty(stderr),
            },
        )
    }
}

} // verus!
