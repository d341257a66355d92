//! The error taxonomy of the command processor. A failed command returns
//! one of these and leaves the state untouched.

use vstd::prelude::*;

verus! {

#[derive(Clone, Copy, Debug, PartialEq, Eq, Structural)]
pub enum WmError {
    /// The monitor index named by the command does not exist.
    NoMonitor,
    /// The workspace index named by the command does not exist.
    NoWorkspace,
    /// The focused workspace has no container to operate on.
    NoContainer,
    /// The focused container has no window to operate on.
    NoWindow,
    /// The focused container holds a single window, so it cannot be
    /// unstacked.
    SingleWindow,
    /// No monitor's rectangle contains the current cursor position, or the
    /// cursor position is unknown.
    NoMonitorAtCursor,
    /// No quicksave state has been written yet, or it cannot be read.
    NoQuicksave,
    /// The file named by a load command does not exist or cannot be parsed.
    NoFile,
    /// The named pipe for a subscriber has not been created by the
    /// subscriber yet.
    PipeNotCreated,
    /// A rectangle or padding argument lies outside the coordinate bound
    /// the engine can do layout arithmetic on.
    GeometryOutOfRange,
}

impl WmError {
    /// A short human-readable description, for the shell's logging.
    pub fn message(&self) -> (r: &'static str)
        ensures
            r@.len() > 0,
    {
        let s: &'static str = match self {
            WmError::NoMonitor => "there is no monitor at this index",
            WmError::NoWorkspace => "there is no workspace at this index",
            WmError::NoContainer => "there is no container",
            WmError::NoWindow => "there is no window",
            WmError::SingleWindow => "there is only one window in this container",
            WmError::NoMonitorAtCursor => {
                "there is no monitor associated with the current cursor position"
            },
            WmError::NoQuicksave => "no quicksave found",
            WmError::NoFile => "no file found at this path",
            WmError::PipeNotCreated => {
                "the named pipe has not yet been created; please create it before running this command"
            },
            WmError::GeometryOutOfRange => "geometry values are out of the supported range",
        };
        proof {
            reveal_strlit("there is no monitor at this index");
            reveal_strlit("there is no workspace at this index");
            reveal_strlit("there is no container");
            reveal_strlit("there is no window");
            reveal_strlit("there is only one window in this container");
            reveal_strlit("there is no monitor associated with the current cursor position");
            reveal_strlit("no quicksave found");
            reveal_strlit("no file found at this path");
            reveal_strlit(
                "the named pipe has not yet been created; please create it before running this command",
            );
            reveal_strlit("geometry values are out of the supported range");
        }
        s
    }
}

} // verus!
