//! Outside types that the library carries through without looking inside.
//!
//! Verus sees nothing inside a value of any of these types: the library only
//! stores them and hands them on unchanged.
use vstd::prelude::*;

verus! {

/// `iced_core::window::Id`: the id of an iced surface.
#[verifier::external_type_specification]
#[verifier::external_body]
pub struct ExSurfaceId(iced_core::window::Id);

/// `iced_core::window::Mode`: windowed, fullscreen or hidden.
#[verifier::external_type_specification]
#[verifier::external_body]
pub struct ExWindowMode(iced_core::window::Mode);

/// `iced_core::touch::Event`: a touch interaction as iced reports it.
#[verifier::external_type_specification]
#[verifier::external_body]
pub struct ExTouchEvent(iced_core::touch::Event);

/// `iced_core::mouse::Button`: a mouse button as iced names it.
#[verifier::external_type_specification]
#[verifier::external_body]
pub struct ExMouseButton(iced_core::mouse::Button);

/// `iced_core::mouse::ScrollDelta`: a scroll movement as iced reports it.
#[verifier::external_type_specification]
#[verifier::external_body]
pub struct ExScrollDelta(iced_core::mouse::ScrollDelta);

/// `iced_core::keyboard::key::Named`: a key with an established name.
#[verifier::external_type_specification]
#[verifier::external_body]
pub struct ExNamedKey(iced_core::keyboard::key::Named);

/// `iced_core::keyboard::Location`: where on the keyboard a key lies.
#[verifier::external_type_specification]
#[verifier::external_body]
pub struct ExKeyLocation(iced_core::keyboard::Location);

/// `std::time::Instant`: a point in time.
#[verifier::external_type_specification]
#[verifier::external_body]
pub struct ExInstant(std::time::Instant);

/// `smithay_client_toolkit::seat::Capability`: keyboard, pointer or touch.
#[verifier::external_type_specification]
#[verifier::external_body]
pub struct ExCapability(smithay_client_toolkit::seat::Capability);

/// `smithay_client_toolkit::shell::wlr_layer::Anchor`: the edges a layer surface sticks to.
#[verifier::external_type_specification]
#[verifier::external_body]
pub struct ExAnchor(smithay_client_toolkit::shell::wlr_layer::Anchor);

/// `smithay_client_toolkit::shell::wlr_layer::Layer`: the stacking layer of a layer surface.
#[verifier::external_type_specification]
#[verifier::external_body]
pub struct ExLayer(smithay_client_toolkit::shell::wlr_layer::Layer);

/// `smithay_client_toolkit::shell::wlr_layer::KeyboardInteractivity`.
#[verifier::external_type_specification]
#[verifier::external_body]
pub struct ExKeyboardInteractivity(smithay_client_toolkit::shell::wlr_layer::KeyboardInteractivity);

/// `wl_data_device_manager::DndAction`: the drag and drop actions (copy, move, ask).
#[verifier::external_type_specification]
#[verifier::external_body]
pub struct ExDndAction(
    smithay_client_toolkit::reexports::client::protocol::wl_data_device_manager::DndAction,
);

/// `wl_output::WlOutput`: a handle on a Wayland output.
#[verifier::external_type_specification]
#[verifier::external_body]
pub struct ExWlOutput(smithay_client_toolkit::reexports::client::protocol::wl_output::WlOutput);

/// `smithay_client_toolkit::shell::xdg::window::DecorationMode`: client or server side decorations.
#[verifier::external_type_specification]
#[verifier::external_body]
pub struct ExDecorationMode(smithay_client_toolkit::shell::xdg::window::DecorationMode);

/// `wayland_csd_frame::WindowManagerCapabilities` (re-exported by sctk).
#[verifier::external_type_specification]
#[verifier::external_body]
pub struct ExWindowManagerCapabilities(
    smithay_client_toolkit::reexports::csd_frame::WindowManagerCapabilities,
);

/// `wayland_csd_frame::WindowState` (re-exported by sctk): maximized, fullscreen, ...
#[verifier::external_type_specification]
#[verifier::external_body]
pub struct ExWindowState(smithay_client_toolkit::reexports::csd_frame::WindowState);

/// `smithay_client_toolkit::output::OutputInfo`: what the compositor tells of an output.
#[verifier::external_type_specification]
#[verifier::external_body]
pub struct ExOutputInfo(smithay_client_toolkit::output::OutputInfo);

/// `smithay_client_toolkit::shell::xdg::popup::PopupConfigure`.
#[verifier::external_type_specification]
#[verifier::external_body]
pub struct ExPopupConfigure(smithay_client_toolkit::shell::xdg::popup::PopupConfigure);

/// `smithay_client_toolkit::shell::wlr_layer::LayerSurfaceConfigure`.
#[verifier::external_type_specification]
#[verifier::external_body]
pub struct ExLayerSurfaceConfigure(smithay_client_toolkit::shell::wlr_layer::LayerSurfaceConfigure);

/// `smithay_client_toolkit::session_lock::SessionLockSurfaceConfigure`.
#[verifier::external_type_specification]
#[verifier::external_body]
pub struct ExSessionLockSurfaceConfigure(
    smithay_client_toolkit::session_lock::SessionLockSurfaceConfigure,
);

/// `wayland_protocols::wp::viewporter::client::wp_viewport::WpViewport`: a handle on a viewport.
#[verifier::external_type_specification]
#[verifier::external_body]
pub struct ExWpViewport(wayland_protocols::wp::viewporter::client::wp_viewport::WpViewport);

// The clones of the outside types that the library's events hold. Those of
// `Copy` types (their `Clone` is derived next to `Copy`) give back the value
// itself; of the others nothing is claimed.

/// `Clone::clone` of `iced_core::keyboard::key::Named` (derived; the type is `Copy`).
pub assume_specification[ <iced_core::keyboard::key::Named as std::clone::Clone>::clone ](
    named: &iced_core::keyboard::key::Named,
) -> (r: iced_core::keyboard::key::Named)
    ensures
        r == *named,
;

/// `Clone::clone` of `iced_core::keyboard::Location` (derived; the type is `Copy`).
pub assume_specification[ <iced_core::keyboard::Location as std::clone::Clone>::clone ](
    location: &iced_core::keyboard::Location,
) -> (r: iced_core::keyboard::Location)
    ensures
        r == *location,
;

/// `Clone::clone` of `iced_core::window::Id` (derived; the type is `Copy`).
pub assume_specification[ <iced_core::window::Id as std::clone::Clone>::clone ](
    id: &iced_core::window::Id,
) -> (r: iced_core::window::Id)
    ensures
        r == *id,
;

/// `Clone::clone` of `iced_core::touch::Event` (derived; the type is `Copy`).
pub assume_specification[ <iced_core::touch::Event as std::clone::Clone>::clone ](
    event: &iced_core::touch::Event,
) -> (r: iced_core::touch::Event)
    ensures
        r == *event,
;

/// `Clone::clone` of `DndAction` (derived by bitflags; the type is `Copy`).
pub assume_specification[ <smithay_client_toolkit::reexports::client::protocol::wl_data_device_manager::DndAction as std::clone::Clone>::clone ](
    action: &smithay_client_toolkit::reexports::client::protocol::wl_data_device_manager::DndAction,
) -> (r: smithay_client_toolkit::reexports::client::protocol::wl_data_device_manager::DndAction)
    ensures
        r == *action,
;

/// `Clone::clone` of `WindowManagerCapabilities` (derived; the type is `Copy`).
pub assume_specification[ <smithay_client_toolkit::reexports::csd_frame::WindowManagerCapabilities as std::clone::Clone>::clone ](
    capabilities: &smithay_client_toolkit::reexports::csd_frame::WindowManagerCapabilities,
) -> (r: smithay_client_toolkit::reexports::csd_frame::WindowManagerCapabilities)
    ensures
        r == *capabilities,
;

/// `Clone::clone` of `WindowState` (derived; the type is `Copy`).
pub assume_specification[ <smithay_client_toolkit::reexports::csd_frame::WindowState as std::clone::Clone>::clone ](
    state: &smithay_client_toolkit::reexports::csd_frame::WindowState,
) -> (r: smithay_client_toolkit::reexports::csd_frame::WindowState)
    ensures
        r == *state,
;

/// `Clone::clone` of `OutputInfo` (derived); nothing is claimed of the copy.
pub assume_specification[ <smithay_client_toolkit::output::OutputInfo as std::clone::Clone>::clone ](
    info: &smithay_client_toolkit::output::OutputInfo,
) -> smithay_client_toolkit::output::OutputInfo;

/// `Clone::clone` of `PopupConfigure` (derived); nothing is claimed of the copy.
pub assume_specification[ <smithay_client_toolkit::shell::xdg::popup::PopupConfigure as std::clone::Clone>::clone ](
    configure: &smithay_client_toolkit::shell::xdg::popup::PopupConfigure,
) -> smithay_client_toolkit::shell::xdg::popup::PopupConfigure;

/// `Clone::clone` of `LayerSurfaceConfigure` (derived); nothing is claimed of the copy.
pub assume_specification[ <smithay_client_toolkit::shell::wlr_layer::LayerSurfaceConfigure as std::clone::Clone>::clone ](
    configure: &smithay_client_toolkit::shell::wlr_layer::LayerSurfaceConfigure,
) -> smithay_client_toolkit::shell::wlr_layer::LayerSurfaceConfigure;

/// `Clone::clone` of `SessionLockSurfaceConfigure` (derived); nothing is claimed of the copy.
pub assume_specification[ <smithay_client_toolkit::session_lock::SessionLockSurfaceConfigure as std::clone::Clone>::clone ](
    configure: &smithay_client_toolkit::session_lock::SessionLockSurfaceConfigure,
) -> smithay_client_toolkit::session_lock::SessionLockSurfaceConfigure;

} // verus!
