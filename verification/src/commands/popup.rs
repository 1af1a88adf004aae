//! Interact with the popups of your application.
use vstd::prelude::*;

use iced_core::window::Id as SurfaceId;

verus! {

/// A request about a popup; `P` is the type of the settings a new popup is
/// built from.
#[derive(Debug)]
pub enum Action<P> {
    /// Create a popup from the settings.
    Popup { popup: P },
    Size { id: SurfaceId, width: u32, height: u32 },
    Grab { id: SurfaceId },
    Destroy { id: SurfaceId },
}

/// <https://wayland.app/protocols/wlr-layer-shell-unstable-v1#zwlr_layer_surface_v1:request:get_popup>
/// <https://wayland.app/protocols/xdg-shell#xdg_surface:request:get_popup>
pub fn get_popup<P>(popup: P) -> (r: Action<P>)
    ensures
        r == (Action::Popup { popup }),
{
    Action::Popup { popup }
}

/// <https://wayland.app/protocols/xdg-shell#xdg_popup:request:reposition>
pub fn set_size<P>(id: SurfaceId, width: u32, height: u32) -> (r: Action<P>)
    ensures
        r == (Action::<P>::Size { id, width, height }),
{
    Action::Size { id, width, height }
}

/// <https://wayland.app/protocols/xdg-shell#xdg_popup:request:grab>
pub fn grab_popup<P>(id: SurfaceId) -> (r: Action<P>)
    ensures
        r == (Action::<P>::Grab { id }),
{
    Action::Grab { id }
}

/// <https://wayland.app/protocols/xdg-shell#xdg_popup:request:destroy>
pub fn destroy_popup<P>(id: SurfaceId) -> (r: Action<P>)
    ensures
        r == (Action::<P>::Destroy { id }),
{
    Action::Destroy { id }
}

} // verus!
