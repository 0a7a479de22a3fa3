//! Restarting the app, and recognising other instances of it.

use vstd::prelude::*;

use crate::text::{eq_ignore_ascii_case, eq_ignore_ascii_case_spec};

verus! {

/// The exit code asking for a restart without showing the window.
pub const SILENT_RESTART_CODE: i32 = 1;

/// The argument that starts the app without its window.
pub const SILENT_ARG: &'static str = "--silent";

/// The argument that starts the settings window on its own.
pub const SETTINGS_ARG: &'static str = "--settings";

/// The process names the app runs under, with and without extension.
pub const APP_PROCESS_NAME: &'static str = "blade-controlhub";
pub const APP_PROCESS_FILE_NAME: &'static str = "blade-controlhub.exe";

/// The arguments the replacement process is started with.
pub fn restart_args(code: i32) -> (args: Vec<&'static str>)
    ensures
        code == SILENT_RESTART_CODE ==> args@.len() == 1 && args@[0]@ == SILENT_ARG@,
        code != SILENT_RESTART_CODE ==> args@.len() == 0,
{
    let mut args: Vec<&'static str> = Vec::new();
    if code == SILENT_RESTART_CODE {
        args.push(SILENT_ARG);
    }
    args
}

/// Whether a process name is this app's, ignoring ASCII case.
pub fn is_app_process_name(name: &str) -> (matches: bool)
    ensures
        matches == (eq_ignore_ascii_case_spec(name@, APP_PROCESS_NAME@)
            || eq_ignore_ascii_case_spec(name@, APP_PROCESS_FILE_NAME@)),
{
    eq_ignore_ascii_case(name, APP_PROCESS_NAME) || eq_ignore_ascii_case(name, APP_PROCESS_FILE_NAME)
}

/// Whether a command-line argument asks for the settings window alone,
/// ignoring ASCII case.
pub fn is_settings_mode_arg(arg: &str) -> (matches: bool)
    ensures
        matches == eq_ignore_ascii_case_spec(arg@, SETTINGS_ARG@),
{
    eq_ignore_ascii_case(arg, SETTINGS_ARG)
}

/// Whether any argument asks for the settings window alone.
pub fn has_settings_mode_arg(args: &Vec<String>) -> (found: bool)
    ensures
        found == exists|i: int| 0 <= i < args@.len() && eq_ignore_ascii_case_spec(
            #[trigger] args@[i]@,
            SETTINGS_ARG@,
        ),
{
    let mut i: usize = 0;
    while i < args.len()
        invariant
            i <= args@.len(),
            forall|j: int| 0 <= j < i ==> !eq_ignore_ascii_case_spec(#[trigger] args@[j]@, SETTINGS_ARG@),
        decreases args.len() - i,
    {
        if is_settings_mode_arg(args[i].as_str()) {
            return true;
        }
        i += 1;
    }
    false
}

/// Whether a running process is an earlier instance to close on startup: one
/// of this app's, not a settings window, and not this process itself.
pub fn is_stale_instance(name: &str, args: &Vec<String>, pid: u32, current_pid: u32) -> (stale: bool)
    ensures
        stale == ((eq_ignore_ascii_case_spec(name@, APP_PROCESS_NAME@) || eq_ignore_ascii_case_spec(
            name@,
            APP_PROCESS_FILE_NAME@,
        )) && !(exists|i: int| 0 <= i < args@.len() && eq_ignore_ascii_case_spec(
            #[trigger] args@[i]@,
            SETTINGS_ARG@,
        )) && pid != current_pid),
{
    is_app_process_name(name) && !has_settings_mode_arg(args) && pid != current_pid
}

/// The most lines the log keeps across a restart.
pub const TRUNC_MAX_LINES: usize = 1000;

/// The lines a log of `lines` keeps when it is trimmed at startup: its last
/// `TRUNC_MAX_LINES`, or `None` when it is short enough to leave alone.
pub fn trimmed_log(lines: &Vec<String>) -> (kept: Option<Vec<String>>)
    ensures
        lines@.len() <= TRUNC_MAX_LINES ==> kept is None,
        lines@.len() > TRUNC_MAX_LINES ==> kept is Some && kept->0@.len() == TRUNC_MAX_LINES
            && forall|i: int| 0 <= i < TRUNC_MAX_LINES ==> #[trigger] kept->0@[i]@
                == lines@[lines@.len() - TRUNC_MAX_LINES + i]@,
{
    if lines.len() <= TRUNC_MAX_LINES {
        return None;
    }
    let start = lines.len() - TRUNC_MAX_LINES;
    let mut kept: Vec<String> = Vec::new();
    let mut i: usize = start;
    while i < lines.len()
        invariant
            start == lines@.len() - TRUNC_MAX_LINES,
            start <= i <= lines@.len(),
            kept@.len() == i - start,
            forall|k: int| 0 <= k < i - start ==> #[trigger] kept@[k]@ == lines@[start + k]@,
        decreases lines.len() - i,
    {
        let line = lines[i].clone();
        kept.push(line);
        i += 1;
    }
    Some(kept)
}

} // verus!
