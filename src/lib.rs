//! Detects whether the WebView2 runtime is installed and, when it is not,
//! drives its download and installation: an optional elevated launch, a
//! bounded wait on it, and a fallback to a non-elevated install, each step
//! gated by the user's confirmation.
//!
//! The decisions are made by two state machines, `flow::Stage` for the
//! confirmation procedure and `installer::InstallStage` for one install
//! attempt; the caller performs the actions they ask for and reports back.
use vstd::prelude::*;

pub mod flow;
pub mod install;
pub mod installer;
pub mod runs;
pub mod wstring;

pub use flow::{Action, DialogAnswer, Event, Stage};
pub use install::{InstallError, LaunchMode};
pub use wstring::WString;

verus! {

} // verus!
