//! The editor in which a body can be written: which program is started, and
//! what its end means for the run.

use crate::error::ErrorKind;
use vstd::prelude::*;
use vstd::string::*;

verus! {

/// The editor that is started where none is configured.
pub open spec fn default_editor(windows: bool) -> Seq<char> {
    if windows {
        "notepad"@
    } else {
        "vim"@
    }
}

/// The editor to start: the configured one, else the default of the platform.
pub fn editor_command(configured: Option<String>, windows: bool) -> (command: String)
    ensures
        command@ == match configured {
            Some(name) => name@,
            None => default_editor(windows),
        },
{
    match configured {
        Some(name) => name,
        None => if windows {
            String::from_str("notepad")
        } else {
            String::from_str("vim")
        },
    }
}

/// How the writing of a body in the editor went.
#[derive(Clone, Copy, Debug, PartialEq, Eq, Structural)]
pub enum EditorRun {
    /// The temporary file could not be made.
    NoFile,
    /// The editor could not be started.
    NotStarted,
    /// The editor ended; whether it reported success.
    Exited(bool),
    /// The editor ended and the file could not be read.
    Unreadable,
}

/// What the run makes of the editor's end.
#[derive(Clone, Copy, Debug, PartialEq, Eq, Structural)]
pub enum EditorVerdict {
    /// The run ends with this failure.
    Abort(ErrorKind),
    /// The content of the file is the body; `warn` asks for a warning to the
    /// operator.
    ReadFile { warn: bool },
}

/// What follows from the way the editor ended. An editor that ended without
/// success is worth a warning and no more: what it left in the file is the
/// body all the same.
pub open spec fn verdict_for(run: EditorRun) -> EditorVerdict {
    match run {
        EditorRun::NoFile => EditorVerdict::Abort(ErrorKind::EditorInvocation),
        EditorRun::NotStarted => EditorVerdict::Abort(ErrorKind::EditorInvocation),
        EditorRun::Exited(success) => EditorVerdict::ReadFile { warn: !success },
        EditorRun::Unreadable => EditorVerdict::Abort(ErrorKind::EditorInvocation),
    }
}

/// Decides what the end of the editor means for the run.
pub fn editor_verdict(run: EditorRun) -> (verdict: EditorVerdict)
    ensures
        verdict == verdict_for(run),
{
    match run {
        EditorRun::NoFile => EditorVerdict::Abort(ErrorKind::EditorInvocation),
        EditorRun::NotStarted => EditorVerdict::Abort(ErrorKind::EditorInvocation),
        EditorRun::Exited(success) => EditorVerdict::ReadFile { warn: !success },
        EditorRun::Unreadable => EditorVerdict::Abort(ErrorKind::EditorInvocation),
    }
}

} // verus!
