use vstd::prelude::*;

verus! {

/// Failures of the lifecycle operations.
#[derive(Clone, Copy, Debug, PartialEq, Eq, Structural)]
pub enum SessionError {
    /// The wall clock could not be read.
    Clock,
    /// The durable store could not be read, written or flushed.
    Store,
    /// No primary display was found to size the overlay.
    Display,
    /// The window that an operation addresses does not exist.
    WindowNotFound,
    /// A record that the caller expects is absent.
    NotFound,
}

} // verus!
