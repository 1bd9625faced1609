//! What is known of the window that had the focus when the hotkey was pressed.
//! The platform query itself is made by the program around this library, which
//! hands over a `WindowReport`.
use crate::geometry::Rectangle;
use crate::text::{trim_trailing, without_trailing};
use vstd::prelude::*;

verus! {

/// The platform's answer to the question which window has the focus.
/// `file_name` is the last component of the process's path where the path has
/// one that is valid text; `process_path` is the whole path.
#[derive(Debug, Clone, PartialEq, Eq)]
pub struct WindowReport {
    pub file_name: Option<String>,
    pub process_path: String,
    pub title: String,
    pub bounds: Rectangle,
}

/// The active window as the toggle sequence sees it.
#[derive(Debug, Clone, PartialEq, Eq)]
pub struct ActiveWindowSnapshot {
    pub process_identity: String,
    pub window_title: String,
    pub bounds: Rectangle,
}

/// The ending that is cut off an executable's file name.
pub open spec fn executable_suffix() -> Seq<char> {
    ".exe"@
}

/// The message of a failed query.
pub open spec fn query_failure() -> Seq<char> {
    "Failed to get active window"@
}

/// The process identity of a report: the file name without its executable
/// ending, or the whole path where there is no file name.
pub open spec fn process_identity_of(report: WindowReport) -> Seq<char> {
    match report.file_name {
        Some(name) => without_trailing(name@, executable_suffix()),
        None => report.process_path@,
    }
}

/// Derives the process identity from a report.
pub fn process_identity(report: &WindowReport) -> (r: String)
    ensures
        r@ == process_identity_of(*report),
{
    match &report.file_name {
        Some(name) => {
            proof {
                reveal_strlit(".exe");
            }
            trim_trailing(name.as_str(), ".exe")
        },
        None => report.process_path.clone(),
    }
}

/// Takes the snapshot that a toggle sequence works on.
pub fn take_snapshot(report: &WindowReport) -> (r: ActiveWindowSnapshot)
    ensures
        r.process_identity@ == process_identity_of(*report),
        r.window_title@ == report.title@,
        r.bounds == report.bounds,
{
    ActiveWindowSnapshot {
        process_identity: process_identity(report),
        window_title: report.title.clone(),
        bounds: report.bounds,
    }
}

/// The process identity of the active application, or the failure message
/// where the platform gave no report.
pub fn get_active_application(report: Option<&WindowReport>) -> (r: Result<String, String>)
    ensures
        match report {
            Some(w) => r is Ok && r->Ok_0@ == process_identity_of(*w),
            None => r is Err && r->Err_0@ == query_failure(),
        },
{
    match report {
        Some(w) => Ok(process_identity(w)),
        None => Err("Failed to get active window".to_string()),
    }
}

/// The title of the active window, or the failure message where the platform
/// gave no report.
pub fn get_active_window_title(report: Option<&WindowReport>) -> (r: Result<String, String>)
    ensures
        match report {
            Some(w) => r is Ok && r->Ok_0@ == w.title@,
            None => r is Err && r->Err_0@ == query_failure(),
        },
{
    match report {
        Some(w) => Ok(w.title.clone()),
        None => Err("Failed to get active window".to_string()),
    }
}

} // verus!
