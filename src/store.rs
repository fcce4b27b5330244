use vstd::prelude::*;

use crate::config::{OverlayConfig, OverlayView, SessionConfig, SessionView};

verus! {

/// The records kept durably: the active session (key `active-session`) and
/// the overlay's display parameters (key `session-config`).
pub struct SessionStore {
    pub active: Option<SessionConfig>,
    pub overlay: Option<OverlayConfig>,
}

/// Mathematical value of a [`SessionStore`].
pub struct StoreState {
    pub active: Option<SessionView>,
    pub overlay: Option<OverlayView>,
}

pub open spec fn session_view_of(o: Option<SessionConfig>) -> Option<SessionView> {
    match o {
        Some(c) => Some(c@),
        None => None,
    }
}

pub open spec fn overlay_view_of(o: Option<OverlayConfig>) -> Option<OverlayView> {
    match o {
        Some(c) => Some(c@),
        None => None,
    }
}

impl View for SessionStore {
    type V = StoreState;

    open spec fn view(&self) -> StoreState {
        StoreState { active: session_view_of(self.active), overlay: overlay_view_of(self.overlay) }
    }
}

/// A store that holds no record.
pub open spec fn empty_store() -> StoreState {
    StoreState { active: None, overlay: None }
}

/// The store after the active session is replaced by `session`.
pub open spec fn with_active(s: StoreState, session: SessionView) -> StoreState {
    StoreState { active: Some(session), ..s }
}

/// The store after the active session is deleted (a no-op when there is none).
pub open spec fn without_active(s: StoreState) -> StoreState {
    StoreState { active: None, ..s }
}

/// The store after the overlay record is replaced by `overlay`.
pub open spec fn with_overlay(s: StoreState, overlay: OverlayView) -> StoreState {
    StoreState { overlay: Some(overlay), ..s }
}

impl SessionStore {
    /// A store with no record in it.
    pub fn new() -> (r: SessionStore)
        ensures
            r@ == empty_store(),
    {
        SessionStore { active: None, overlay: None }
    }

    /// Writes the active session, replacing any earlier one.
    pub fn set_active(&mut self, session: SessionConfig)
        ensures
            final(self)@ == with_active(old(self)@, session@),
    {
        self.active = Some(session);
    }

    /// Deletes the active session; deleting an absent record does nothing.
    pub fn delete_active(&mut self)
        ensures
            final(self)@ == without_active(old(self)@),
    {
        self.active = None;
    }

    /// Writes the overlay record, replacing any earlier one.
    pub fn set_overlay(&mut self, overlay: OverlayConfig)
        ensures
            final(self)@ == with_overlay(old(self)@, overlay@),
    {
        self.overlay = Some(overlay);
    }

    /// A copy of the active session, if any.
    pub fn get_active(&self) -> (r: Option<SessionConfig>)
        ensures
            session_view_of(r) == self@.active,
    {
        match &self.active {
            Some(c) => Some(c.copy()),
            None => None,
        }
    }

    /// A copy of the overlay record, if any.
    pub fn get_overlay(&self) -> (r: Option<OverlayConfig>)
        ensures
            overlay_view_of(r) == self@.overlay,
    {
        match &self.overlay {
            Some(c) => Some(c.copy()),
            None => None,
        }
    }
}

} // verus!
