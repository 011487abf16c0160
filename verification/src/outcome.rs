//! How a step or a run can end, and the words in which a failure is told.

use vstd::prelude::*;
use crate::magick::ghostscript_program;
use crate::text::{concat, str_eq};

verus! {

/// The name of the tool that packs an archive.
pub open spec fn zip_program() -> Seq<char> {
    "zip"@
}

/// The name of the tool that moves files.
pub open spec fn move_program() -> Seq<char> {
    "mv"@
}

/// The name of the tool that packs an archive.
pub fn zip_binary_name() -> (s: &'static str)
    ensures
        s@ == zip_program(),
{
    "zip"
}

/// The name of the tool that moves files.
pub fn move_binary_name() -> (s: &'static str)
    ensures
        s@ == move_program(),
{
    "mv"
}

/// The kinds of failure.
#[derive(Debug, Clone, Copy, PartialEq, Eq, Hash, Structural)]
pub enum FailureKind {
    /// The plan broke one of its own rules. Not for the user's eyes.
    PlanningDefect,
    /// A tool that the run needs is not installed.
    ToolMissing,
    /// A tool ended with an error.
    ToolFailure,
    /// The workspace, a move or a process could not be handled.
    IoFailure,
}

/// A failure: its kind and the text that describes it.
#[derive(Debug, Clone, PartialEq, Eq)]
pub struct Failure {
    pub kind: FailureKind,
    pub message: String,
}

/// What a [`Failure`] holds, as plain values.
pub struct FailureView {
    pub kind: FailureKind,
    pub message: Seq<char>,
}

impl View for Failure {
    type V = FailureView;

    open spec fn view(&self) -> FailureView {
        FailureView { kind: self.kind, message: self.message@ }
    }
}

impl Failure {
    /// Whether the failure is that a tool is not installed.
    pub fn is_tool_missing(&self) -> (r: bool)
        ensures
            r == (self@.kind == FailureKind::ToolMissing),
    {
        matches!(self.kind, FailureKind::ToolMissing)
    }
}

/// How a step ended.
#[derive(Debug, Clone, PartialEq, Eq)]
pub enum JobOutcome {
    Success,
    Failure(Failure),
}

/// What a [`JobOutcome`] holds, as plain values.
pub enum JobOutcomeView {
    Success,
    Failure(FailureView),
}

impl View for JobOutcome {
    type V = JobOutcomeView;

    open spec fn view(&self) -> JobOutcomeView {
        match self {
            JobOutcome::Success => JobOutcomeView::Success,
            JobOutcome::Failure(f) => JobOutcomeView::Failure(f@),
        }
    }
}

/// What is said where the document renderer is not installed.
pub open spec fn gs_missing_text() -> Seq<char> {
    "The 'gs' (GhostScript) command is not available on your system. Please install GhostScript to convert multiple files to PDF."@
}

/// What is said where the archiver is not installed.
pub open spec fn zip_missing_text() -> Seq<char> {
    "The 'zip' command is not available on your system. Please install zip to convert multiple files to ZIP."@
}

/// What is said where a process could not be waited for.
pub open spec fn unknown_io_text() -> Seq<char> {
    "Unknown IO error happened"@
}

/// What is said where the document renderer is not installed.
pub fn gs_missing() -> (s: String)
    ensures
        s@ == gs_missing_text(),
{
    String::from_str(
        "The 'gs' (GhostScript) command is not available on your system. Please install GhostScript to convert multiple files to PDF.",
    )
}

/// What is said where the archiver is not installed.
pub fn zip_missing() -> (s: String)
    ensures
        s@ == zip_missing_text(),
{
    String::from_str(
        "The 'zip' command is not available on your system. Please install zip to convert multiple files to ZIP.",
    )
}

/// How a process ended: whether it ended well, and what it wrote to its
/// standard output and to its standard error.
#[derive(Debug, Clone, PartialEq, Eq)]
pub struct ProcessExit {
    pub success: bool,
    pub stdout: String,
    pub stderr: String,
}

/// What a [`ProcessExit`] holds, as plain values.
pub struct ProcessExitView {
    pub success: bool,
    pub stdout: Seq<char>,
    pub stderr: Seq<char>,
}

impl View for ProcessExit {
    type V = ProcessExitView;

    open spec fn view(&self) -> ProcessExitView {
        ProcessExitView { success: self.success, stdout: self.stdout@, stderr: self.stderr@ }
    }
}

/// The view of an end that may not be known.
pub open spec fn exit_view(exit: Option<ProcessExit>) -> Option<ProcessExitView> {
    match exit {
        Some(e) => Some(e@),
        None => None,
    }
}

/// Whether a process is known to have ended well.
pub open spec fn ended_well(exit: Option<ProcessExitView>) -> bool {
    exit is Some && exit->0.success
}

/// The outcome of a process that was waited for. One that ended well is a
/// success; of one that did not, all that it wrote is the failure's text,
/// the standard output first. `None` stands for a process whose end could
/// not be learnt.
pub open spec fn outcome_of_exit(exit: Option<ProcessExitView>) -> JobOutcomeView {
    match exit {
        Some(e) => if e.success {
            JobOutcomeView::Success
        } else {
            JobOutcomeView::Failure(
                FailureView { kind: FailureKind::ToolFailure, message: e.stdout + e.stderr },
            )
        },
        None => JobOutcomeView::Failure(
            FailureView { kind: FailureKind::IoFailure, message: unknown_io_text() },
        ),
    }
}

/// Judges a process that was waited for; `exit` holds nothing where
/// waiting failed.
pub fn wait_outcome(exit: Option<ProcessExit>) -> (r: JobOutcome)
    ensures
        r@ == outcome_of_exit(exit_view(exit)),
        r is Success == ended_well(exit_view(exit)),
{
    match exit {
        Some(e) => {
            if e.success {
                JobOutcome::Success
            } else {
                JobOutcome::Failure(
                    Failure {
                        kind: FailureKind::ToolFailure,
                        message: concat(e.stdout.as_str(), e.stderr.as_str()),
                    },
                )
            }
        },
        None => JobOutcome::Failure(
            Failure {
                kind: FailureKind::IoFailure,
                message: String::from_str("Unknown IO error happened"),
            },
        ),
    }
}

/// The failure that stands for a process that could not be started. Where
/// the document renderer was not found, the failure says how to mend that;
/// else it names the program and gives the reason.
pub open spec fn failure_of_spawn(program: Seq<char>, not_found: bool, reason: Seq<char>) -> FailureView {
    if program == ghostscript_program() && not_found {
        FailureView { kind: FailureKind::ToolMissing, message: gs_missing_text() }
    } else {
        FailureView { kind: FailureKind::IoFailure, message: program + ": "@ + reason }
    }
}

/// Judges a process that could not be started: `not_found` tells whether
/// the program was not found, `reason` is the system's description.
pub fn spawn_failure(program: &str, not_found: bool, reason: &str) -> (f: Failure)
    ensures
        f@ == failure_of_spawn(program@, not_found, reason@),
{
    if not_found && str_eq(program, crate::magick::ghostscript_binary_name()) {
        Failure { kind: FailureKind::ToolMissing, message: gs_missing() }
    } else {
        let mut message: String = concat(program, ": ");
        message.append(reason);
        Failure { kind: FailureKind::IoFailure, message }
    }
}

/// How a run ended, as it is told to whoever started it.
#[derive(Debug, Clone, PartialEq, Eq)]
pub enum RunResult {
    /// The results lie at this path.
    Success(String),
    /// The run failed, with this text; the flag tells a missing tool from
    /// every other failure.
    Failure(String, bool),
}

} // verus!
