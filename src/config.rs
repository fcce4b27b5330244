use vstd::prelude::*;

verus! {

/// Seconds the overlay stays up when the session asked for no delay.
pub const DEFAULT_OVERLAY_DELAY_SECONDS: u64 = 5;

/// The delay the overlay actually waits: a requested delay of zero means the default.
pub open spec fn normalized_delay(delay: u64) -> u64 {
    if delay == 0 {
        DEFAULT_OVERLAY_DELAY_SECONDS
    } else {
        delay
    }
}

/// Replaces an unset (zero) overlay delay by the default.
pub fn normalize_delay(delay: u64) -> (r: u64)
    ensures
        r == normalized_delay(delay),
{
    if delay == 0 {
        DEFAULT_OVERLAY_DELAY_SECONDS
    } else {
        delay
    }
}

/// The one active session: its length in minutes, the overlay's message,
/// the overlay's delay in seconds, and the Unix time at which it began.
#[derive(Clone, Debug)]
pub struct SessionConfig {
    pub duration: u64,
    pub message: String,
    pub delay: u64,
    pub start_time: u64,
}

/// Mathematical value of a [`SessionConfig`].
pub struct SessionView {
    pub duration: u64,
    pub message: Seq<char>,
    pub delay: u64,
    pub start_time: u64,
}

impl View for SessionConfig {
    type V = SessionView;

    open spec fn view(&self) -> SessionView {
        SessionView {
            duration: self.duration,
            message: self.message@,
            delay: self.delay,
            start_time: self.start_time,
        }
    }
}

/// What the overlay needs to render the break screen.
#[derive(Clone, Debug)]
pub struct OverlayConfig {
    pub message: String,
    pub delay: u64,
}

/// Mathematical value of an [`OverlayConfig`].
pub struct OverlayView {
    pub message: Seq<char>,
    pub delay: u64,
}

impl View for OverlayConfig {
    type V = OverlayView;

    open spec fn view(&self) -> OverlayView {
        OverlayView { message: self.message@, delay: self.delay }
    }
}

impl SessionConfig {
    /// Field-by-field equality.
    pub fn same_as(&self, other: &SessionConfig) -> (r: bool)
        ensures
            r == (self@ == other@),
    {
        self.duration == other.duration && self.delay == other.delay && self.start_time
            == other.start_time && self.message == other.message
    }

    /// A field-by-field copy.
    pub fn copy(&self) -> (r: SessionConfig)
        ensures
            r@ == self@,
    {
        SessionConfig {
            duration: self.duration,
            message: self.message.clone(),
            delay: self.delay,
            start_time: self.start_time,
        }
    }
}

impl OverlayConfig {
    /// A field-by-field copy.
    pub fn copy(&self) -> (r: OverlayConfig)
        ensures
            r@ == self@,
    {
        OverlayConfig { message: self.message.clone(), delay: self.delay }
    }
}

} // verus!
