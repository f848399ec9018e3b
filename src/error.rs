use vstd::prelude::*;

verus! {

/// Failures of the pipeline.
///
/// `CannotGetCurrentProgram` and `UserConfigExecutionError` stay inside the
/// poller that met them: the tick is skipped. `SendError` ends the current
/// engine run, and `HidError` a connection attempt; the supervisor retries
/// after both.
#[derive(Clone, Debug, PartialEq, Eq)]
pub enum Error {
    /// The focused window or its program could not be determined.
    CannotGetCurrentProgram,
    /// A user command failed, or its output was not a byte value.
    UserConfigExecutionError(String),
    /// A write to the open device failed.
    SendError(String),
    /// No configured device could be opened.
    HidError(String),
}

} // verus!
