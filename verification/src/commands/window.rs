//! Interact with the windows of your application.
use vstd::prelude::*;

use iced_core::window::Id as SurfaceId;
use iced_core::window::Mode;

verus! {

/// A request about a window; `W` is the type of the settings a new window is
/// built from.
#[derive(Debug)]
pub enum Action<W> {
    /// Create a window from the settings.
    Window { builder: W },
    Destroy(SurfaceId),
    Size { id: SurfaceId, width: u32, height: u32 },
    InteractiveMove { id: SurfaceId },
    Maximize { id: SurfaceId },
    UnsetMaximize { id: SurfaceId },
    ToggleMaximized { id: SurfaceId },
    AppId { id: SurfaceId, app_id: String },
    Mode(SurfaceId, Mode),
}

/// Creates a window from the settings.
pub fn get_window<W>(builder: W) -> (r: Action<W>)
    ensures
        r == (Action::Window { builder }),
{
    Action::Window { builder }
}

/// Closes the window.
pub fn close_window<W>(id: SurfaceId) -> (r: Action<W>)
    ensures
        r == Action::<W>::Destroy(id),
{
    Action::Destroy(id)
}

/// Resizes the window to the given logical dimensions.
pub fn resize_window<W>(id: SurfaceId, width: u32, height: u32) -> (r: Action<W>)
    ensures
        r == (Action::<W>::Size { id, width, height }),
{
    Action::Size { id, width, height }
}

/// Starts an interactive move of the window.
pub fn start_drag_window<W>(id: SurfaceId) -> (r: Action<W>)
    ensures
        r == (Action::<W>::InteractiveMove { id }),
{
    Action::InteractiveMove { id }
}

/// Maximizes the window, or restores it from maximized.
pub fn maximize<W>(id: SurfaceId, maximized: bool) -> (r: Action<W>)
    ensures
        maximized ==> r == (Action::<W>::Maximize { id }),
        !maximized ==> r == (Action::<W>::UnsetMaximize { id }),
{
    if maximized {
        Action::Maximize { id }
    } else {
        Action::UnsetMaximize { id }
    }
}

/// Toggles the maximized state of the window.
pub fn toggle_maximize<W>(id: SurfaceId) -> (r: Action<W>)
    ensures
        r == (Action::<W>::ToggleMaximized { id }),
{
    Action::ToggleMaximized { id }
}

/// Sets the app id of the window.
pub fn set_app_id_window<W>(id: SurfaceId, app_id: String) -> (r: Action<W>)
    ensures
        r == (Action::<W>::AppId { id, app_id }),
{
    Action::AppId { id, app_id }
}

/// Sets the [`Mode`] of the window.
pub fn set_mode_window<W>(id: SurfaceId, mode: Mode) -> (r: Action<W>)
    ensures
        r == Action::<W>::Mode(id, mode),
{
    Action::Mode(id, mode)
}

} // verus!
