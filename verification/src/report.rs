//! Reporting: what a job came to, how grave that is for a single run and
//! for a run inside a watch, and the words to say it in.

use vstd::prelude::*;
use crate::config::WatchState;
use crate::writer::Outcome;
use crate::yank::YankError;

verus! {

/// What a job came to.
#[derive(Debug, Clone, Copy, PartialEq, Eq, Structural)]
pub enum Finding {
    /// Files were written.
    Written,
    /// The blueprint is valid and holds nothing to extract.
    NoArtifacts,
    /// The job failed.
    Failed(YankError),
}

/// How grave a finding is.
#[derive(Debug, Clone, Copy, PartialEq, Eq, Structural)]
pub enum Severity {
    /// Nothing went wrong.
    Success,
    /// Worth a line on the console; the watch goes on.
    Warning,
    /// The failure is reported to the caller and ends the watch.
    Fatal,
}

/// The finding that the outcome of a run amounts to.
pub open spec fn finding_of(o: Outcome) -> Finding {
    match o {
        Outcome::Written(_) => Finding::Written,
        Outcome::NoArtifacts => Finding::NoArtifacts,
        _ => Finding::Failed(YankError::IoError),
    }
}

/// How grave `finding` is for a job in watch state `watch`. Written files
/// are a success. A blueprint without files is no error in a single run and
/// a warning in a watch. A source that cannot be read or parsed is fatal to
/// a single run and a warning in a watch, where it may be caught half
/// written. A failed file operation, and a watch that cannot be set up, are
/// always fatal.
pub open spec fn severity_of(watch: WatchState, finding: Finding) -> Severity {
    match finding {
        Finding::Written => Severity::Success,
        Finding::NoArtifacts => if watch.is_watch() {
            Severity::Warning
        } else {
            Severity::Success
        },
        Finding::Failed(YankError::InputNotFound) => if watch.is_watch() {
            Severity::Warning
        } else {
            Severity::Fatal
        },
        Finding::Failed(YankError::ParseError) => if watch.is_watch() {
            Severity::Warning
        } else {
            Severity::Fatal
        },
        Finding::Failed(YankError::IoError) => Severity::Fatal,
        Finding::Failed(YankError::WatchSetupError) => Severity::Fatal,
    }
}

/// The cause of a finding, in words.
pub open spec fn cause_of(finding: Finding) -> Seq<char> {
    match finding {
        Finding::Written => "files written"@,
        Finding::NoArtifacts => "no files found"@,
        Finding::Failed(YankError::InputNotFound) => "blueprint not found"@,
        Finding::Failed(YankError::ParseError) => "unable to parse blueprint"@,
        Finding::Failed(YankError::IoError) => "unable to write"@,
        Finding::Failed(YankError::WatchSetupError) => "unable to watch"@,
    }
}

/// The line that reports `finding` at `path`: the cause, a colon and the
/// path.
pub open spec fn report_of(finding: Finding, path: Seq<char>) -> Seq<char> {
    cause_of(finding) + ": "@ + path
}

impl Finding {
    /// The finding that the outcome of a run amounts to.
    pub fn of_outcome(o: Outcome) -> (r: Finding)
        ensures
            r == finding_of(o),
    {
        match o {
            Outcome::Written(_) => Finding::Written,
            Outcome::NoArtifacts => Finding::NoArtifacts,
            _ => Finding::Failed(YankError::IoError),
        }
    }

    /// How grave the finding is for a job in watch state `watch`.
    pub fn severity(self, watch: WatchState) -> (r: Severity)
        ensures
            r == severity_of(watch, self),
    {
        match self {
            Finding::Written => Severity::Success,
            Finding::NoArtifacts => if watch.is_watch() {
                Severity::Warning
            } else {
                Severity::Success
            },
            Finding::Failed(e) => match e {
                YankError::InputNotFound | YankError::ParseError => if watch.is_watch() {
                    Severity::Warning
                } else {
                    Severity::Fatal
                },
                YankError::IoError | YankError::WatchSetupError => Severity::Fatal,
            },
        }
    }

    /// The cause of the finding, in words.
    pub fn cause(self) -> (r: &'static str)
        ensures
            r@ == cause_of(self),
    {
        match self {
            Finding::Written => "files written",
            Finding::NoArtifacts => "no files found",
            Finding::Failed(e) => match e {
                YankError::InputNotFound => "blueprint not found",
                YankError::ParseError => "unable to parse blueprint",
                YankError::IoError => "unable to write",
                YankError::WatchSetupError => "unable to watch",
            },
        }
    }

    /// The line that reports the finding at `path`: it names the cause and
    /// the path.
    pub fn report(self, path: &str) -> (r: String)
        ensures
            r@ == report_of(self, path@),
    {
        let mut r = self.cause().to_owned();
        r.append(": ");
        r.append(path);
        r
    }
}

/// In a watch only a failed file operation or a failed setup is fatal, and
/// nothing that a single run survives is fatal in a watch.
pub proof fn watch_downgrades_only(finding: Finding)
    ensures
        severity_of(WatchState::Watching, finding) == Severity::Fatal <==> (finding
            == Finding::Failed(YankError::IoError) || finding == Finding::Failed(
            YankError::WatchSetupError,
        )),
        severity_of(WatchState::Disabled, finding) != Severity::Fatal ==> severity_of(
            WatchState::Watching,
            finding,
        ) != Severity::Fatal,
        severity_of(WatchState::Disabled, finding) != Severity::Warning,
{
}

} // verus!
