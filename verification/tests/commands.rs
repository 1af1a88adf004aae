use iced_core::window::{Id, Mode};
use iced_sctk::commands::activation;
use iced_sctk::commands::data_device::{self, ActionInner};
use iced_sctk::commands::layer_surface::{self, Anchor, IcedMargin, KeyboardInteractivity, Layer};
use iced_sctk::commands::popup;
use iced_sctk::commands::session_lock;
use iced_sctk::commands::window;
use smithay_client_toolkit::reexports::client::protocol::wl_data_device_manager::DndAction;

#[test]
fn layer_surface_requests() {
    let id = Id::unique();
    assert!(matches!(
        layer_surface::get_layer_surface::<&str>("settings"),
        layer_surface::Action::LayerSurface { builder: "settings" }
    ));
    assert!(matches!(
        layer_surface::destroy_layer_surface::<()>(id),
        layer_surface::Action::Destroy(i) if i == id
    ));
    assert!(matches!(
        layer_surface::set_size::<()>(id, Some(10), None),
        layer_surface::Action::Size { id: i, width: Some(10), height: None } if i == id
    ));
    assert!(matches!(
        layer_surface::set_anchor::<()>(id, Anchor::TOP | Anchor::LEFT),
        layer_surface::Action::Anchor { id: i, anchor } if i == id && anchor == Anchor::TOP | Anchor::LEFT
    ));
    assert!(matches!(
        layer_surface::set_exclusive_zone::<()>(id, -1),
        layer_surface::Action::ExclusiveZone { id: i, exclusive_zone: -1 } if i == id
    ));
    assert!(matches!(
        layer_surface::set_margin::<()>(id, 1, 2, 3, 4),
        layer_surface::Action::Margin { id: i, margin: IcedMargin { top: 1, right: 2, bottom: 3, left: 4 } } if i == id
    ));
    assert!(matches!(
        layer_surface::set_keyboard_interactivity::<()>(id, KeyboardInteractivity::OnDemand),
        layer_surface::Action::KeyboardInteractivity { id: i, keyboard_interactivity: KeyboardInteractivity::OnDemand } if i == id
    ));
    assert!(matches!(
        layer_surface::set_layer::<()>(id, Layer::Overlay),
        layer_surface::Action::Layer { id: i, layer: Layer::Overlay } if i == id
    ));
}

#[test]
fn maximize_picks_the_request_by_its_flag() {
    let id = Id::unique();
    assert!(matches!(window::maximize::<()>(id, true), window::Action::Maximize { id: i } if i == id));
    assert!(matches!(window::maximize::<()>(id, false), window::Action::UnsetMaximize { id: i } if i == id));
}

#[test]
fn window_requests() {
    let id = Id::unique();
    assert!(matches!(window::get_window::<u8>(7), window::Action::Window { builder: 7 }));
    assert!(matches!(window::close_window::<()>(id), window::Action::Destroy(i) if i == id));
    assert!(matches!(
        window::resize_window::<()>(id, 640, 480),
        window::Action::Size { id: i, width: 640, height: 480 } if i == id
    ));
    assert!(matches!(window::start_drag_window::<()>(id), window::Action::InteractiveMove { id: i } if i == id));
    assert!(matches!(window::toggle_maximize::<()>(id), window::Action::ToggleMaximized { id: i } if i == id));
    match window::set_app_id_window::<()>(id, "org.example.App".to_string()) {
        window::Action::AppId { id: i, app_id } => {
            assert_eq!(i, id);
            assert_eq!(app_id, "org.example.App");
        }
        other => panic!("unexpected {:?}", other),
    }
    assert!(matches!(
        window::set_mode_window::<()>(id, Mode::Fullscreen),
        window::Action::Mode(i, Mode::Fullscreen) if i == id
    ));
}

#[test]
fn popup_requests() {
    let id = Id::unique();
    assert!(matches!(popup::get_popup::<u8>(3), popup::Action::Popup { popup: 3 }));
    assert!(matches!(
        popup::set_size::<()>(id, 20, 30),
        popup::Action::Size { id: i, width: 20, height: 30 } if i == id
    ));
    assert!(matches!(popup::grab_popup::<()>(id), popup::Action::Grab { id: i } if i == id));
    assert!(matches!(popup::destroy_popup::<()>(id), popup::Action::Destroy { id: i } if i == id));
}

#[test]
fn session_lock_requests() {
    let id = Id::unique();
    assert!(matches!(session_lock::lock(), session_lock::Action::Lock));
    assert!(matches!(session_lock::unlock(), session_lock::Action::Unlock));
    assert!(matches!(
        session_lock::destroy_lock_surface(id),
        session_lock::Action::DestroyLockSurface { id: i } if i == id
    ));
}

#[test]
fn activation_requests() {
    let id = Id::unique();
    match activation::request_token(Some("app".to_string()), Some(id), |token: Option<String>| token.is_some()) {
        activation::Action::RequestToken { app_id, window, message } => {
            assert_eq!(app_id.as_deref(), Some("app"));
            assert_eq!(window, Some(id));
            assert!(message(Some("t".to_string())));
            assert!(!message(None));
        }
        _ => panic!("expected a token request"),
    }
    match activation::activate::<()>(id, "token".to_string()) {
        activation::Action::Activate { window, token } => {
            assert_eq!(window, id);
            assert_eq!(token, "token");
        }
        _ => panic!("expected an activation"),
    }
}

#[test]
fn data_device_requests() {
    let id = Id::unique();
    let icon = Id::unique();
    assert!(matches!(
        data_device::start_internal_drag::<(), ()>(id, Some(icon)),
        ActionInner::StartInternalDnd { origin_id, icon_id: Some(i) } if origin_id == id && i == icon
    ));
    match data_device::start_drag::<u8, &str>(
        vec!["text/plain".to_string()],
        DndAction::Copy | DndAction::Move,
        id,
        Some(9),
        "payload",
    ) {
        ActionInner::StartDnd { mime_types, actions, origin_id, icon_id, data } => {
            assert_eq!(mime_types, vec!["text/plain".to_string()]);
            assert_eq!(actions, DndAction::Copy | DndAction::Move);
            assert_eq!(origin_id, id);
            assert_eq!(icon_id, Some(9));
            assert_eq!(data, "payload");
        }
        _ => panic!("expected a drag start"),
    }
    assert!(matches!(
        data_device::set_actions::<(), ()>(DndAction::Move, DndAction::Copy),
        ActionInner::SetActions { preferred, accepted } if preferred == DndAction::Move && accepted == DndAction::Copy
    ));
    assert!(matches!(
        data_device::accept_mime_type::<(), ()>(Some("text/uri-list".to_string())),
        ActionInner::Accept(Some(ref m)) if m == "text/uri-list"
    ));
    assert!(matches!(data_device::accept_mime_type::<(), ()>(None), ActionInner::Accept(None)));
    assert!(matches!(
        data_device::request_dnd_data::<(), ()>("image/png".to_string()),
        ActionInner::RequestDndData(ref m) if m == "image/png"
    ));
    assert!(matches!(data_device::finish_dnd::<(), ()>(), ActionInner::DndFinished));
    assert!(matches!(data_device::cancel_dnd::<(), ()>(), ActionInner::DndCancelled));
    assert!(matches!(
        data_device::action::<(), ()>(ActionInner::DndCancelled),
        ActionInner::DndCancelled
    ));
}
