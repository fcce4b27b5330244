use vstd::prelude::*;

use crate::config::{
    normalize_delay, normalized_delay, OverlayConfig, OverlayView, SessionConfig, SessionView,
};
use crate::error::SessionError;
use crate::store::{
    empty_store, session_view_of, with_active, with_overlay, without_active, SessionStore,
    StoreState,
};
use crate::window::{close_overlay_actions, close_overlay_window, WindowAction};

verus! {

/// Seconds until a session of `duration` minutes expires; a length beyond the
/// range of `u64` seconds saturates.
pub open spec fn expiry_seconds(duration: u64) -> u64 {
    if duration * 60 <= u64::MAX {
        (duration * 60) as u64
    } else {
        u64::MAX
    }
}

/// The session record that a start at Unix time `now` writes.
pub open spec fn new_session(duration: u64, message: Seq<char>, delay: u64, now: u64) -> SessionView {
    SessionView { duration, message, delay, start_time: now }
}

/// A fired expiry acts only while the session that scheduled it is still the active one.
pub open spec fn is_current(s: StoreState, session: SessionView) -> bool {
    s.active == Some(session)
}

/// The overlay record that presenting `session` writes.
pub open spec fn overlay_for(session: SessionView) -> OverlayView {
    OverlayView { message: session.message, delay: normalized_delay(session.delay) }
}

/// `plan` shows `message` for the normalized `delay` on a display of size `d`.
pub open spec fn plans(plan: OverlayPlan, message: Seq<char>, delay: u64, d: DisplaySize) -> bool {
    plan.message@ == message && plan.delay == normalized_delay(delay) && plan.width == d.width
        && plan.height == d.height
}

/// What the overlay lookup returns on a store.
pub open spec fn config_lookup(s: StoreState) -> Result<OverlayView, SessionError> {
    match s.overlay {
        Some(o) => Ok(o),
        None => Err(SessionError::NotFound),
    }
}

/// Actions when the overlay's delay has elapsed.
pub open spec fn auto_close_actions(enabled: bool, overlay_exists: bool, main_exists: bool) -> Seq<
    WindowAction,
> {
    if enabled {
        close_overlay_actions(overlay_exists, main_exists)
    } else {
        Seq::empty()
    }
}

/// Seconds until a session of `duration` minutes expires, saturating.
pub fn session_expiry_seconds(duration: u64) -> (r: u64)
    ensures
        r == expiry_seconds(duration),
{
    if duration <= u64::MAX / 60 {
        duration * 60
    } else {
        u64::MAX
    }
}

/// Plans the overlay for `message` with the requested `delay` on the primary
/// display (absent when none was found): the delay is normalized, and without
/// a display there is no overlay.
pub fn present_overlay(message: &String, delay: u64, display: Option<DisplaySize>) -> (r: Result<
    OverlayPlan,
    SessionError,
>)
    ensures
        match display {
            None => r is Err && r->Err_0 == SessionError::Display,
            Some(d) => r is Ok && plans(r->Ok_0, message@, delay, d),
        },
{
    match display {
        None => Err(SessionError::Display),
        Some(d) => Ok(
            OverlayPlan {
                message: message.clone(),
                delay: normalize_delay(delay),
                width: d.width,
                height: d.height,
            },
        ),
    }
}

/// A scheduled end of a session: after `seconds`, the overlay for `session` is due.
pub struct ExpiryTimer {
    pub seconds: u64,
    pub session: SessionConfig,
}

/// Physical size of the primary display, in pixels.
#[derive(Clone, Copy, Debug, PartialEq, Eq, Structural)]
pub struct DisplaySize {
    pub width: u32,
    pub height: u32,
}

/// What to show: the overlay's message and delay, and the display's physical size.
pub struct OverlayPlan {
    pub message: String,
    pub delay: u64,
    pub width: u32,
    pub height: u32,
}

/// A scheduled end of the overlay's delay.
#[derive(Clone, Copy, Debug, PartialEq, Eq, Structural)]
pub struct AutoCloseTimer {
    pub seconds: u64,
}

/// The lifecycle controller: the durable records and whether the overlay
/// closes by itself once its delay has elapsed.
pub struct Controller {
    pub store: SessionStore,
    pub auto_close_enabled: bool,
}

impl Controller {
    /// A controller over an empty store.
    pub fn new(auto_close_enabled: bool) -> (r: Controller)
        ensures
            r.store@ == empty_store(),
            r.auto_close_enabled == auto_close_enabled,
    {
        Controller { store: SessionStore::new(), auto_close_enabled }
    }

    /// A controller over records loaded from durable storage.
    pub fn with_store(store: SessionStore, auto_close_enabled: bool) -> (r: Controller)
        ensures
            r.store@ == store@,
            r.auto_close_enabled == auto_close_enabled,
    {
        Controller { store, auto_close_enabled }
    }

    /// Starts a session at the Unix time `clock` (absent when the clock could
    /// not be read), replacing any earlier session, and returns the timer that
    /// ends it.
    pub fn start_session(&mut self, duration: u64, message: String, delay: u64, clock: Option<u64>) -> (r:
        Result<ExpiryTimer, SessionError>)
        ensures
            final(self).auto_close_enabled == old(self).auto_close_enabled,
            match clock {
                None => r is Err && r->Err_0 == SessionError::Clock && final(self).store@ == old(
                    self,
                ).store@,
                Some(now) => final(self).store@ == with_active(
                    old(self).store@,
                    new_session(duration, message@, delay, now),
                ) && r is Ok && r->Ok_0.seconds == expiry_seconds(duration) && r->Ok_0.session@
                    == new_session(duration, message@, delay, now),
            },
    {
        match clock {
            None => Err(SessionError::Clock),
            Some(now) => {
                let session = SessionConfig { duration, message, delay, start_time: now };
                let kept = session.copy();
                self.store.set_active(session);
                Ok(ExpiryTimer { seconds: session_expiry_seconds(duration), session: kept })
            },
        }
    }

    /// Ends the active session; with none active this does nothing. A timer
    /// already scheduled for it finds it gone when it fires.
    pub fn stop_session(&mut self)
        ensures
            final(self).auto_close_enabled == old(self).auto_close_enabled,
            final(self).store@ == without_active(old(self).store@),
    {
        self.store.delete_active();
    }

    /// The active session, if any.
    pub fn get_session_status(&self) -> (r: Option<SessionConfig>)
        ensures
            session_view_of(r) == self.store@.active,
    {
        self.store.get_active()
    }

    /// The overlay's display parameters, or `NotFound` if no overlay was ever presented.
    pub fn get_session_config(&self) -> (r: Result<OverlayConfig, SessionError>)
        ensures
            match r {
                Ok(c) => config_lookup(self.store@) == Ok::<OverlayView, SessionError>(c@),
                Err(e) => config_lookup(self.store@) == Err::<OverlayView, SessionError>(e),
            },
    {
        match self.store.get_overlay() {
            Some(c) => Ok(c),
            None => Err(SessionError::NotFound),
        }
    }

    /// Decides what a fired expiry does, given the primary display (absent
    /// when none was found). A timer whose session is no longer the active one
    /// does nothing.
    pub fn plan_overlay(&self, timer: &ExpiryTimer, display: Option<DisplaySize>) -> (r: Result<
        Option<OverlayPlan>,
        SessionError,
    >)
        ensures
            !is_current(self.store@, timer.session@) ==> (r is Ok && r->Ok_0 is None),
            is_current(self.store@, timer.session@) ==> match display {
                None => r is Err && r->Err_0 == SessionError::Display,
                Some(d) => r is Ok && r->Ok_0 is Some && plans(
                    r->Ok_0->Some_0,
                    timer.session@.message,
                    timer.session@.delay,
                    d,
                ),
            },
    {
        let current = match &self.store.active {
            Some(a) => a.same_as(&timer.session),
            None => false,
        };
        if !current {
            return Ok(None);
        }
        match present_overlay(&timer.session.message, timer.session.delay, display) {
            Ok(plan) => Ok(Some(plan)),
            Err(e) => Err(e),
        }
    }

    /// Records the overlay that `plan` put on screen, so that the overlay can
    /// fetch its parameters, and returns the timer of its delay.
    pub fn overlay_shown(&mut self, plan: &OverlayPlan) -> (r: AutoCloseTimer)
        ensures
            final(self).auto_close_enabled == old(self).auto_close_enabled,
            final(self).store@ == with_overlay(
                old(self).store@,
                OverlayView { message: plan.message@, delay: plan.delay },
            ),
            r.seconds == plan.delay,
    {
        self.store.set_overlay(OverlayConfig { message: plan.message.clone(), delay: plan.delay });
        AutoCloseTimer { seconds: plan.delay }
    }

    /// The actions due when the overlay's delay has elapsed: none unless
    /// auto-close is enabled, else closing the overlay and showing the main window.
    pub fn auto_close_elapsed(&self, overlay_exists: bool, main_exists: bool) -> (r: Vec<
        WindowAction,
    >)
        ensures
            r@ == auto_close_actions(self.auto_close_enabled, overlay_exists, main_exists),
    {
        if self.auto_close_enabled {
            close_overlay_window(overlay_exists, main_exists)
        } else {
            let r: Vec<WindowAction> = Vec::new();
            assert(r@ =~= Seq::<WindowAction>::empty());
            r
        }
    }
}

} // verus!
