//! The daemon update report.
//!
//! Version discovery (the local venv, the package index) is I/O and stays
//! with the caller; this module holds the report type it fills in.

use vstd::prelude::*;
use crate::strutil::{found_line_value, line_value_after_prefix};

verus! {

/// What an update check found: the installed version, the newest available
/// version, and whether the latter is ahead of the former.
#[derive(Clone, Debug)]
pub struct DaemonUpdateInfo {
    pub current_version: String,
    pub available_version: String,
    pub is_available: bool,
}

impl DaemonUpdateInfo {
    /// Assemble an update report.
    pub fn new(current_version: String, available_version: String, is_available: bool) -> (r:
        DaemonUpdateInfo)
        ensures
            r.current_version@ == current_version@,
            r.available_version@ == available_version@,
            r.is_available == is_available,
    {
        DaemonUpdateInfo { current_version, available_version, is_available }
    }
}

/// The installed package version recorded in a dist-info `METADATA` file:
/// the value of its first `Version: ` line, or nothing when the file has
/// none. Reading the venv's file tree stays with the caller, which passes
/// the file's text in.
pub fn metadata_version(content: &str) -> (r: Option<String>)
    ensures
        found_line_value(content@, "Version: "@, r),
{
    line_value_after_prefix(content, "Version: ")
}

} // verus!
