//! Laws that relate the lifecycle operations, stated over the same spec
//! functions that the operations' own contracts use.
use vstd::prelude::*;

use crate::config::{normalized_delay, OverlayView, SessionView, DEFAULT_OVERLAY_DELAY_SECONDS};
use crate::controller::{config_lookup, is_current, new_session, overlay_for};
use crate::error::SessionError;
use crate::store::{empty_store, with_active, with_overlay, without_active, StoreState};
use crate::window::{maximized_after, toggle_maximize_action};

verus! {

/// Right after a start at time `now`, the status is exactly the session that
/// was started: its duration, message and delay, and `now` as its start time.
pub proof fn law_start_then_status(
    s: StoreState,
    duration: u64,
    message: Seq<char>,
    delay: u64,
    now: u64,
)
    ensures
        with_active(s, new_session(duration, message, delay, now)).active == Some(
            SessionView { duration, message, delay, start_time: now },
        ),
{
}

/// After a stop the status is absent.
pub proof fn law_stop_then_status(s: StoreState)
    ensures
        without_active(s).active is None,
{
}

/// A session started with a zero overlay delay, once its expiry fires and the
/// overlay is shown, leaves an overlay record whose delay is the default.
pub proof fn law_zero_delay_presents_default(
    s: StoreState,
    duration: u64,
    message: Seq<char>,
    now: u64,
)
    ensures
        is_current(
            with_active(s, new_session(duration, message, 0, now)),
            new_session(duration, message, 0, now),
        ),
        config_lookup(
            with_overlay(
                with_active(s, new_session(duration, message, 0, now)),
                overlay_for(new_session(duration, message, 0, now)),
            ),
        ) == Ok::<OverlayView, SessionError>(
            OverlayView { message, delay: DEFAULT_OVERLAY_DELAY_SECONDS },
        ),
{
    assert(normalized_delay(0) == DEFAULT_OVERLAY_DELAY_SECONDS);
}

/// Before any overlay was presented, the overlay lookup is `NotFound`.
pub proof fn law_no_overlay_before_presenting()
    ensures
        config_lookup(empty_store()) == Err::<OverlayView, SessionError>(SessionError::NotFound),
{
}

/// Stopping twice leaves the store as stopping once does, and the second stop
/// is no error.
pub proof fn law_stop_idempotent(s: StoreState)
    ensures
        without_active(without_active(s)) == without_active(s),
{
}

/// Toggling a non-maximized window twice maximizes it, then restores it.
pub proof fn law_maximize_twice()
    ensures
        maximized_after(false, toggle_maximize_action(false)),
        !maximized_after(
            maximized_after(false, toggle_maximize_action(false)),
            toggle_maximize_action(maximized_after(false, toggle_maximize_action(false))),
        ),
{
}

} // verus!
