//! The `arrive` module holds the error types of the crate: a flat taxonomy
//! used to bubble failures up to the appropriate handler.

use vstd::prelude::*;

verus! {

/// The primary error type.  Failures of outside collaborators (the OS window
/// system, the channels between asynchronous producers and the event loop)
/// are mapped by the caller onto the matching variant; failures of the
/// library's own logic fall under `Excuse`.
#[derive(Debug, Clone, Copy, PartialEq, Eq, PartialOrd, Ord, Hash, Structural)]
pub enum Blame {
    /// A delimited text file could not be read.
    Csv,
    /// A new OS event loop could not be created.
    EventLoop,
    /// An asynchronous producer tried to send a message to the event loop
    /// after it had closed.  Producers treat this as a signal to stop
    /// generating further work, never as a fatal error.
    EventLoopClosed,
    /// An internal library error, described by the contained [`Excuse`].
    Excuse(Excuse),
    /// A file location could not be opened.
    Io,
    /// A oneshot reply channel failed before delivering its value.
    Oneshot,
    /// The OS reported an error, typically on window creation.
    OsError,
    /// The channel carrying relayed action requests failed.
    Tokio,
}

/// Internal library error states.
#[derive(Debug, Clone, Copy, PartialEq, Eq, PartialOrd, Ord, Hash, Structural)]
pub enum Excuse {
    /// A frame was requested from an empty frame pool.
    NoFrames,
    /// A geometry query or plan was made while no monitor was available:
    /// either no window is open yet (monitor enumeration needs a live
    /// window), or the enumerated monitor list is empty.
    NoMonitors,
    /// A monitor is too small to place a window under the minimum-span
    /// constraint.  Planning on such a monitor is reported as this fatal
    /// error, never silently clamped.
    SmallMonitor,
}

/// An alias of [`Result`] over the common error type [`Blame`].
pub type Arrive<T> = Result<T, Blame>;

} // verus!
