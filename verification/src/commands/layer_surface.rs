//! Interact with the layer surfaces of your application.
use vstd::prelude::*;

use iced_core::window::Id as SurfaceId;
pub use smithay_client_toolkit::shell::wlr_layer::{Anchor, KeyboardInteractivity, Layer};

verus! {

/// The margins of a layer surface, from the edges it is anchored to.
#[derive(Debug, Clone, Copy, PartialEq, Eq)]
pub struct IcedMargin {
    pub top: i32,
    pub right: i32,
    pub bottom: i32,
    pub left: i32,
}

/// A request about a layer surface; `S` is the type of the settings a new
/// layer surface is built from.
#[derive(Debug)]
pub enum Action<S> {
    /// Create a layer surface from the settings.
    LayerSurface { builder: S },
    Destroy(SurfaceId),
    Size { id: SurfaceId, width: Option<u32>, height: Option<u32> },
    Anchor { id: SurfaceId, anchor: Anchor },
    ExclusiveZone { id: SurfaceId, exclusive_zone: i32 },
    Margin { id: SurfaceId, margin: IcedMargin },
    KeyboardInteractivity { id: SurfaceId, keyboard_interactivity: KeyboardInteractivity },
    Layer { id: SurfaceId, layer: Layer },
}

/// <https://wayland.app/protocols/wlr-layer-shell-unstable-v1#zwlr_layer_shell_v1:request:get_layer_surface>
pub fn get_layer_surface<S>(builder: S) -> (r: Action<S>)
    ensures
        r == (Action::LayerSurface { builder }),
{
    Action::LayerSurface { builder }
}

/// <https://wayland.app/protocols/wlr-layer-shell-unstable-v1#zwlr_layer_surface_v1:request:destroy>
pub fn destroy_layer_surface<S>(id: SurfaceId) -> (r: Action<S>)
    ensures
        r == Action::<S>::Destroy(id),
{
    Action::Destroy(id)
}

/// <https://wayland.app/protocols/wlr-layer-shell-unstable-v1#zwlr_layer_surface_v1:request:set_size>
pub fn set_size<S>(id: SurfaceId, width: Option<u32>, height: Option<u32>) -> (r: Action<S>)
    ensures
        r == (Action::<S>::Size { id, width, height }),
{
    Action::Size { id, width, height }
}

/// <https://wayland.app/protocols/wlr-layer-shell-unstable-v1#zwlr_layer_surface_v1:request:set_anchor>
pub fn set_anchor<S>(id: SurfaceId, anchor: Anchor) -> (r: Action<S>)
    ensures
        r == (Action::<S>::Anchor { id, anchor }),
{
    Action::Anchor { id, anchor }
}

/// <https://wayland.app/protocols/wlr-layer-shell-unstable-v1#zwlr_layer_surface_v1:request:set_exclusive_zone>
pub fn set_exclusive_zone<S>(id: SurfaceId, zone: i32) -> (r: Action<S>)
    ensures
        r == (Action::<S>::ExclusiveZone { id, exclusive_zone: zone }),
{
    Action::ExclusiveZone { id, exclusive_zone: zone }
}

/// <https://wayland.app/protocols/wlr-layer-shell-unstable-v1#zwlr_layer_surface_v1:request:set_margin>
pub fn set_margin<S>(id: SurfaceId, top: i32, right: i32, bottom: i32, left: i32) -> (r: Action<S>)
    ensures
        r == (Action::<S>::Margin { id, margin: IcedMargin { top, right, bottom, left } }),
{
    Action::Margin { id, margin: IcedMargin { top, right, bottom, left } }
}

/// <https://wayland.app/protocols/wlr-layer-shell-unstable-v1#zwlr_layer_surface_v1:request:set_keyboard_interactivity>
pub fn set_keyboard_interactivity<S>(
    id: SurfaceId,
    keyboard_interactivity: KeyboardInteractivity,
) -> (r: Action<S>)
    ensures
        r == (Action::<S>::KeyboardInteractivity { id, keyboard_interactivity }),
{
    Action::KeyboardInteractivity { id, keyboard_interactivity }
}

/// <https://wayland.app/protocols/wlr-layer-shell-unstable-v1#zwlr_layer_surface_v1:request:set_layer>
pub fn set_layer<S>(id: SurfaceId, layer: Layer) -> (r: Action<S>)
    ensures
        r == (Action::<S>::Layer { id, layer }),
{
    Action::Layer { id, layer }
}

} // verus!
