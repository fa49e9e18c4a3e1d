//! The helper client: what the privileged helper program is asked, and how
//! its answers are read.

use vstd::prelude::*;
use crate::error::{KpmError, KpmErrorView};
use crate::text::{decode_lossy, lowercase, starts_with, to_lowercase, trim, trimmed, utf8_lossy};

verus! {

/// What came of running the helper with its output captured.
#[derive(Debug, Clone, PartialEq, Eq)]
pub enum HelperOutput {
    /// The process could not be started; the operating system's message.
    NotStarted(String),
    /// The process ran to its end.
    Exited { success: bool, stdout: Vec<u8>, stderr: Vec<u8> },
}

/// The mathematical counterpart of [`HelperOutput`].
pub enum HelperOutputView {
    NotStarted(Seq<char>),
    Exited { success: bool, stdout: Seq<u8>, stderr: Seq<u8> },
}

impl View for HelperOutput {
    type V = HelperOutputView;

    open spec fn view(&self) -> HelperOutputView {
        match self {
            HelperOutput::NotStarted(message) => HelperOutputView::NotStarted(message@),
            HelperOutput::Exited { success, stdout, stderr } => HelperOutputView::Exited {
                success: *success,
                stdout: stdout@,
                stderr: stderr@,
            },
        }
    }
}

/// What came of running the helper for its exit status alone.
#[derive(Debug, Clone, PartialEq, Eq)]
pub enum HelperExit {
    /// The process could not be started; the operating system's message.
    NotStarted(String),
    /// The process ran to its end; whether its exit status was zero.
    Exited(bool),
}

/// The mathematical counterpart of [`HelperExit`].
pub enum HelperExitView {
    NotStarted(Seq<char>),
    Exited(bool),
}

impl View for HelperExit {
    type V = HelperExitView;

    open spec fn view(&self) -> HelperExitView {
        match self {
            HelperExit::NotStarted(message) => HelperExitView::NotStarted(message@),
            HelperExit::Exited(success) => HelperExitView::Exited(*success),
        }
    }
}

/// What a look at the helper's file showed.
#[derive(Debug, Clone, Copy, PartialEq, Eq)]
pub struct HelperProbe {
    /// Whether the path exists.
    pub exists: bool,
    /// The permission bits of the file, where its metadata could be read.
    pub mode: Option<u32>,
}

/// Whether a file with this permission mode may be executed by anyone.
pub open spec fn mode_is_executable(mode: u32) -> bool {
    mode & 0o111 != 0
}

/// Whether the probed file can serve as the helper: it exists and is executable.
pub open spec fn probe_is_configured(probe: HelperProbe) -> bool {
    probe.exists && (probe.mode matches Some(mode) && mode_is_executable(mode))
}

/// The answer of a version query: the trimmed standard output where the
/// helper succeeded, else the failure.
pub open spec fn version_of(output: HelperOutputView) -> Result<Seq<char>, KpmErrorView> {
    match output {
        HelperOutputView::NotStarted(message) => Err(KpmErrorView::HelperExecution(message)),
        HelperOutputView::Exited { success, stdout, stderr } => if success {
            Ok(trimmed(utf8_lossy(stdout)))
        } else {
            Err(KpmErrorView::HelperReported(trimmed(utf8_lossy(stderr))))
        },
    }
}

/// Whether a version text is in truth an error message: in lower case it
/// begins with the word "error".
pub open spec fn reports_error(version: Seq<char>) -> bool {
    "error"@.is_prefix_of(lowercase(version))
}

/// Why the answer to the version query rules the helper out, if it does.
pub open spec fn version_fault(output: HelperOutputView) -> Option<KpmErrorView> {
    match version_of(output) {
        Ok(version) => if reports_error(version) {
            Some(KpmErrorView::HelperUnavailable(version))
        } else {
            None
        },
        Err(error) => Some(KpmErrorView::HelperUnavailable(error.detail())),
    }
}

/// Tells whether the permission bits of a file, if they could be read at all,
/// allow execution by its owner, its group or anyone else.
pub fn is_executable(mode: Option<u32>) -> (yes: bool)
    ensures
        yes == (mode matches Some(m) && mode_is_executable(m)),
{
    match mode {
        Some(m) => m & 0o111 != 0,
        None => false,
    }
}

/// Tells whether the helper is in place: its file exists and is executable.
pub fn check_kpm_configured(probe: &HelperProbe) -> (yes: bool)
    ensures
        yes == probe_is_configured(*probe),
{
    probe.exists && is_executable(probe.mode)
}

/// Reads the helper's answer to a version query.
///
/// A helper that did not start gives `HelperExecution` with the system's
/// message; one that exited with a failure gives `HelperReported` with its
/// trimmed standard error; otherwise the version is its trimmed standard
/// output.
pub fn get_kpm_version(output: &HelperOutput) -> (version: Result<String, KpmError>)
    ensures
        match version {
            Ok(text) => version_of(output@) == Ok::<Seq<char>, KpmErrorView>(text@),
            Err(error) => version_of(output@) == Err::<Seq<char>, KpmErrorView>(error@),
        },
{
    match output {
        HelperOutput::NotStarted(message) => Err(KpmError::HelperExecution(message.clone())),
        HelperOutput::Exited { success, stdout, stderr } => {
            if *success {
                let text = decode_lossy(stdout);
                Ok(trim(text.as_str()))
            } else {
                let text = decode_lossy(stderr);
                Err(KpmError::HelperReported(trim(text.as_str())))
            }
        },
    }
}

/// Tells whether a version text is in truth an error message.
pub fn version_reports_error(version: &str) -> (yes: bool)
    ensures
        yes == reports_error(version@),
{
    let lower = to_lowercase(version);
    starts_with(lower.as_str(), "error")
}

/// Decides from the answer to the version query whether the helper must be
/// given up, and with which error.
pub fn check_version(output: &HelperOutput) -> (fault: Option<KpmError>)
    ensures
        match fault {
            Some(error) => version_fault(output@) == Some(error@),
            None => version_fault(output@) is None,
        },
{
    match get_kpm_version(output) {
        Ok(version) => {
            if version_reports_error(version.as_str()) {
                Some(KpmError::HelperUnavailable(version))
            } else {
                None
            }
        },
        Err(error) => Some(KpmError::HelperUnavailable(error.detail().clone())),
    }
}

} // verus!
