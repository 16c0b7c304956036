//! The error taxonomy of the lifecycle engine.

use vstd::prelude::*;

verus! {

/// Everything a lifecycle operation can fail with.
///
/// The first four variants are precondition violations: the requested
/// transition is not applicable to the service's current status. They are
/// always recoverable by the caller. The remaining variants report failures
/// of the surrounding machinery: an OS facility that could not be invoked
/// (`IoError`), configuration text that could not be decoded (`YamlError`),
/// process-enumeration output that could not be interpreted
/// (`CannotReadPID`, `FailedToParsePID`), and subprocess output that was not
/// valid UTF-8 (`FailedToConvertUtf8`). Payloads are plain strings so the
/// whole taxonomy stays inside the verified world.
#[derive(Debug, Clone, PartialEq, Eq)]
pub enum SvcError {
    ServiceIsRunning,
    ServiceIsNotRunning,
    ServiceIsDisabled,
    ServiceIsEnabled,
    IoError(String),
    YamlError(String),
    CannotReadPID,
    FailedToParsePID,
    FailedToConvertUtf8(String),
}

impl SvcError {
    /// The text each error is reported with.
    pub open spec fn spec_message(self) -> Seq<char> {
        match self {
            SvcError::ServiceIsRunning => "Service is already running."@,
            SvcError::ServiceIsNotRunning => "Service is not running."@,
            SvcError::ServiceIsDisabled => "Service has been disabled"@,
            SvcError::ServiceIsEnabled => "Service has been enabled"@,
            SvcError::IoError(detail) => "IO error: "@ + detail@,
            SvcError::YamlError(detail) => "Yaml error: "@ + detail@,
            SvcError::CannotReadPID => "Cannot read PID"@,
            SvcError::FailedToParsePID => "Failed to parse PID"@,
            SvcError::FailedToConvertUtf8(_) => "Failed to convert string from Utf8"@,
        }
    }

    /// Renders the error for the caller to report.
    pub fn message(&self) -> (r: String)
        ensures
            r@ == self.spec_message(),
    {
        match self {
            SvcError::ServiceIsRunning => "Service is already running.".to_owned(),
            SvcError::ServiceIsNotRunning => "Service is not running.".to_owned(),
            SvcError::ServiceIsDisabled => "Service has been disabled".to_owned(),
            SvcError::ServiceIsEnabled => "Service has been enabled".to_owned(),
            SvcError::IoError(detail) => {
                let mut m = "IO error: ".to_owned();
                m.append(detail.as_str());
                m
            },
            SvcError::YamlError(detail) => {
                let mut m = "Yaml error: ".to_owned();
                m.append(detail.as_str());
                m
            },
            SvcError::CannotReadPID => "Cannot read PID".to_owned(),
            SvcError::FailedToParsePID => "Failed to parse PID".to_owned(),
            SvcError::FailedToConvertUtf8(_) => "Failed to convert string from Utf8".to_owned(),
        }
    }
}

} // verus!
