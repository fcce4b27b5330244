use vstd::prelude::*;

use crate::error::SessionError;

verus! {

/// One request to the windowing layer. The main window and the overlay are
/// looked up by name each time an action is performed.
#[derive(Clone, Copy, Debug, PartialEq, Eq, Structural)]
pub enum WindowAction {
    CloseOverlay,
    ShowMain,
    HideMain,
    MinimizeMain,
    MaximizeMain,
    UnmaximizeMain,
    CloseMain,
}

/// Closing the overlay: close it if it exists, then show the main window if it exists.
pub open spec fn close_overlay_actions(overlay_exists: bool, main_exists: bool) -> Seq<WindowAction> {
    (if overlay_exists {
        seq![WindowAction::CloseOverlay]
    } else {
        Seq::empty()
    }) + (if main_exists {
        seq![WindowAction::ShowMain]
    } else {
        Seq::empty()
    })
}

/// An action on the main window: refused when the main window does not exist.
pub open spec fn main_window_command(main_exists: bool, action: WindowAction) -> Result<
    WindowAction,
    SessionError,
> {
    if main_exists {
        Ok(action)
    } else {
        Err(SessionError::WindowNotFound)
    }
}

/// The action that flips the main window's maximized state.
pub open spec fn toggle_maximize_action(is_maximized: bool) -> WindowAction {
    if is_maximized {
        WindowAction::UnmaximizeMain
    } else {
        WindowAction::MaximizeMain
    }
}

/// Whether the main window is maximized after `action`, given whether it was before.
pub open spec fn maximized_after(is_maximized: bool, action: WindowAction) -> bool {
    match action {
        WindowAction::MaximizeMain => true,
        WindowAction::UnmaximizeMain => false,
        _ => is_maximized,
    }
}

/// The actions that close the overlay and bring the main window back, in order.
/// The caller performs them in turn and stops at the first that fails.
pub fn close_overlay_window(overlay_exists: bool, main_exists: bool) -> (r: Vec<WindowAction>)
    ensures
        r@ == close_overlay_actions(overlay_exists, main_exists),
{
    let mut r: Vec<WindowAction> = Vec::new();
    if overlay_exists {
        r.push(WindowAction::CloseOverlay);
    }
    if main_exists {
        r.push(WindowAction::ShowMain);
    }
    assert(r@ =~= close_overlay_actions(overlay_exists, main_exists));
    r
}

/// Hides the main window.
pub fn hide_main_window(main_exists: bool) -> (r: Result<WindowAction, SessionError>)
    ensures
        r == main_window_command(main_exists, WindowAction::HideMain),
{
    if main_exists {
        Ok(WindowAction::HideMain)
    } else {
        Err(SessionError::WindowNotFound)
    }
}

/// Minimizes the main window.
pub fn minimize_window(main_exists: bool) -> (r: Result<WindowAction, SessionError>)
    ensures
        r == main_window_command(main_exists, WindowAction::MinimizeMain),
{
    if main_exists {
        Ok(WindowAction::MinimizeMain)
    } else {
        Err(SessionError::WindowNotFound)
    }
}

/// Flips the main window between maximized and restored, going by the state
/// that the windowing layer reports.
pub fn maximize_window(main_exists: bool, is_maximized: bool) -> (r: Result<
    WindowAction,
    SessionError,
>)
    ensures
        r == main_window_command(main_exists, toggle_maximize_action(is_maximized)),
        r matches Ok(a) ==> maximized_after(is_maximized, a) == !is_maximized,
{
    if !main_exists {
        Err(SessionError::WindowNotFound)
    } else if is_maximized {
        Ok(WindowAction::UnmaximizeMain)
    } else {
        Ok(WindowAction::MaximizeMain)
    }
}

/// Closes the main window.
pub fn close_window(main_exists: bool) -> (r: Result<WindowAction, SessionError>)
    ensures
        r == main_window_command(main_exists, WindowAction::CloseMain),
{
    if main_exists {
        Ok(WindowAction::CloseMain)
    } else {
        Err(SessionError::WindowNotFound)
    }
}

} // verus!
