use std::collections::HashMap;

use iced_core::keyboard::key::Named;
use iced_core::keyboard::Location;
use iced_core::mouse::Button;
use iced_core::touch::{Event as TouchEvent, Finger};
use iced_core::window::Id;
use iced_core::Point;
use iced_sctk::sctk_event::{
    keysym_to_vkey_location, DataSourceEvent, DndOfferEvent, Key, KeyEvent, KeyboardEvent,
    KeyboardEventVariant, KeymapReading, LayerSurfaceEventVariant, Modifiers, MouseEvent,
    NativeEvent, PointerEvent, PointerEventKind, PopupEventVariant, SctkEvent, SeatEventVariant,
    StartCause, SurfaceCompositorUpdate, SurfaceIdWrapper, SurfaceSize, SurfaceUserRequest,
    WindowConfigure, WindowEvent, WindowEventVariant,
};
use smithay_client_toolkit::reexports::csd_frame::{WindowManagerCapabilities, WindowState};
use smithay_client_toolkit::shell::xdg::window::DecorationMode;

struct Surfaces {
    window: Id,
    popup: Id,
    closed: Id,
    surface_ids: HashMap<u64, SurfaceIdWrapper>,
    destroyed: HashMap<u64, SurfaceIdWrapper>,
    subsurfaces: HashMap<u64, (i32, i32, SurfaceIdWrapper)>,
}

// Surface 10 is a window, 11 a popup, 12 a layer surface, 13 a subsurface of
// the window at (5, -7); 20 is a window that was destroyed.
fn surfaces() -> Surfaces {
    let window = Id::unique();
    let popup = Id::unique();
    let layer = Id::unique();
    let closed = Id::unique();
    let mut surface_ids = HashMap::new();
    surface_ids.insert(10, SurfaceIdWrapper::Window(window));
    surface_ids.insert(11, SurfaceIdWrapper::Popup(popup));
    surface_ids.insert(12, SurfaceIdWrapper::LayerSurface(layer));
    let mut destroyed = HashMap::new();
    destroyed.insert(20, SurfaceIdWrapper::Window(closed));
    let mut subsurfaces = HashMap::new();
    subsurfaces.insert(13, (5, -7, SurfaceIdWrapper::Window(window)));
    Surfaces { window, popup, closed, surface_ids, destroyed, subsurfaces }
}

fn convert(s: &Surfaces, event: SctkEvent, modifiers: &mut Modifiers) -> Vec<NativeEvent> {
    event.to_native(modifiers, &s.surface_ids, &s.destroyed, &s.subsurfaces)
}

fn pointer(surface: u64, kind: PointerEventKind) -> SctkEvent {
    SctkEvent::PointerEvent { variant: PointerEvent { surface, kind }, ptr_id: 1, seat_id: 2 }
}

fn keyboard(variant: KeyboardEventVariant) -> SctkEvent {
    SctkEvent::KeyboardEvent { variant, kbd_id: 3, seat_id: 2 }
}

fn keymap(key: Key) -> KeymapReading {
    KeymapReading { key, location: Location::Standard }
}

// `keysym_utf8` is what xkbcommon gives as the keysym's text, with its NUL.
fn key_event(keymap_key: Key, keysym_utf8: &str, utf8: Option<&str>) -> KeyEvent {
    KeyEvent {
        time: 0,
        raw_code: 38,
        keysym: 0x61,
        utf8: utf8.map(|s| s.to_string()),
        keymap: keymap(keymap_key),
        keysym_utf8: keysym_utf8.to_string(),
    }
}

fn configure(width: u32, height: u32) -> WindowConfigure {
    WindowConfigure {
        new_size: (Some(width), Some(height)),
        suggested_bounds: None,
        decoration_mode: DecorationMode::Client,
        state: WindowState::RESIZING,
        capabilities: WindowManagerCapabilities::all(),
    }
}

fn size(width: u32, height: u32) -> SurfaceSize {
    SurfaceSize { width, height }
}

fn shift() -> Modifiers {
    Modifiers { shift: true, ..Modifiers::default() }
}

#[test]
fn defaults_are_empty() {
    let r = SurfaceUserRequest::default();
    assert!(!r.redraw_requested && !r.refresh_frame);
    let u = SurfaceCompositorUpdate::default();
    assert!(u.configure.is_none() && u.scale_factor.is_none());
    let m = Modifiers::default();
    assert!(!m.ctrl && !m.alt && !m.shift && !m.caps_lock && !m.logo && !m.num_lock);
    assert_eq!(StartCause::Init, StartCause::Init);
    assert_ne!(StartCause::Init, StartCause::Poll);
}

#[test]
fn surface_id_wrapper_inner_gives_the_id() {
    let id = Id::unique();
    for w in [
        SurfaceIdWrapper::LayerSurface(id),
        SurfaceIdWrapper::Window(id),
        SurfaceIdWrapper::Popup(id),
        SurfaceIdWrapper::Dnd(id),
        SurfaceIdWrapper::SessionLock(id),
    ] {
        assert_eq!(w.inner(), id);
    }
}

#[test]
fn identified_keys_are_kept() {
    let (key, location) = keysym_to_vkey_location(
        KeymapReading { key: Key::Named(Named::Enter), location: Location::Numpad },
        "\r\0".to_string(),
    );
    assert!(matches!(key, Key::Named(Named::Enter)));
    assert_eq!(location, Location::Numpad);
    let (key, _) = keysym_to_vkey_location(keymap(Key::Character("q".to_string())), "z\0".to_string());
    assert!(matches!(key, Key::Character(ref c) if c == "q"));
}

#[test]
fn unidentified_keys_fall_back_to_the_keysym_text() {
    let (key, location) = keysym_to_vkey_location(keymap(Key::Unidentified), "a\0".to_string());
    assert!(matches!(key, Key::Character(ref c) if c == "a"));
    assert_eq!(location, Location::Standard);
    let (key, _) = keysym_to_vkey_location(keymap(Key::Unidentified), "é\0".to_string());
    assert!(matches!(key, Key::Character(ref c) if c == "é"));
    let (key, _) = keysym_to_vkey_location(keymap(Key::Unidentified), "€\0".to_string());
    assert!(matches!(key, Key::Character(ref c) if c == "€"));
}

#[test]
fn keysyms_without_text_stay_unidentified() {
    let (key, _) = keysym_to_vkey_location(keymap(Key::Unidentified), String::new());
    assert!(matches!(key, Key::Unidentified));
    let (key, _) = keysym_to_vkey_location(keymap(Key::Unidentified), "\0".to_string());
    assert!(matches!(key, Key::Unidentified));
}

#[test]
fn pointer_enter_and_leave() {
    let s = surfaces();
    let mut m = Modifiers::default();
    let r = convert(&s, pointer(10, PointerEventKind::Enter { serial: 1 }), &mut m);
    assert!(matches!(r.as_slice(), [NativeEvent::Mouse(MouseEvent::CursorEntered)]));
    let r = convert(&s, pointer(10, PointerEventKind::Leave { serial: 2 }), &mut m);
    assert!(matches!(r.as_slice(), [NativeEvent::Mouse(MouseEvent::CursorLeft)]));
}

#[test]
fn motion_on_a_subsurface_gets_its_offset() {
    let s = surfaces();
    let mut m = Modifiers::default();
    let r = convert(&s, pointer(13, PointerEventKind::Motion { time: 5 }), &mut m);
    assert!(matches!(
        r.as_slice(),
        [NativeEvent::Mouse(MouseEvent::CursorMoved { x_offset: 5, y_offset: -7 })]
    ));
}

#[test]
fn motion_elsewhere_has_no_offset() {
    let s = surfaces();
    let mut m = Modifiers::default();
    let r = convert(&s, pointer(10, PointerEventKind::Motion { time: 5 }), &mut m);
    assert!(matches!(
        r.as_slice(),
        [NativeEvent::Mouse(MouseEvent::CursorMoved { x_offset: 0, y_offset: 0 })]
    ));
}

#[test]
fn buttons_are_reported_when_named() {
    let s = surfaces();
    let mut m = Modifiers::default();
    let press = PointerEventKind::Press { time: 1, button: Some(Button::Left), serial: 3 };
    let r = convert(&s, pointer(10, press), &mut m);
    assert!(matches!(r.as_slice(), [NativeEvent::Mouse(MouseEvent::ButtonPressed(Button::Left))]));
    let release = PointerEventKind::Release { time: 2, button: Some(Button::Other(7)), serial: 4 };
    let r = convert(&s, pointer(10, release), &mut m);
    assert!(matches!(r.as_slice(), [NativeEvent::Mouse(MouseEvent::ButtonReleased(Button::Other(7)))]));
    let unnamed = PointerEventKind::Press { time: 3, button: None, serial: 5 };
    assert!(convert(&s, pointer(10, unnamed), &mut m).is_empty());
    let no_scroll = PointerEventKind::Axis { time: 4, delta: None };
    assert!(convert(&s, pointer(10, no_scroll), &mut m).is_empty());
    let scroll = PointerEventKind::Axis {
        time: 4,
        delta: Some(iced_core::mouse::ScrollDelta::Lines { x: 0.0, y: 1.0 }),
    };
    let r = convert(&s, pointer(10, scroll), &mut m);
    assert!(matches!(r.as_slice(), [NativeEvent::Mouse(MouseEvent::WheelScrolled { .. })]));
}

#[test]
fn focus_is_reported_for_windows() {
    let s = surfaces();
    let mut m = Modifiers::default();
    let r = convert(&s, keyboard(KeyboardEventVariant::Enter(10)), &mut m);
    assert!(matches!(r.as_slice(), [NativeEvent::Window(id, WindowEvent::Focused)] if *id == s.window));
    let r = convert(&s, keyboard(KeyboardEventVariant::Leave(10)), &mut m);
    assert!(matches!(r.as_slice(), [NativeEvent::Window(id, WindowEvent::Unfocused)] if *id == s.window));
}

#[test]
fn focus_on_other_surfaces_is_not_reported() {
    let s = surfaces();
    let mut m = Modifiers::default();
    for surface in [11, 12, 13, 99] {
        assert!(convert(&s, keyboard(KeyboardEventVariant::Enter(surface)), &mut m).is_empty());
        assert!(convert(&s, keyboard(KeyboardEventVariant::Leave(surface)), &mut m).is_empty());
    }
    let _ = s.popup;
}

#[test]
fn key_presses_carry_text_and_modifiers() {
    let s = surfaces();
    let mut m = shift();
    let ke = key_event(Key::Unidentified, "a\0", Some("A"));
    let r = convert(&s, keyboard(KeyboardEventVariant::Press(ke)), &mut m);
    match r.as_slice() {
        [NativeEvent::Keyboard(KeyboardEvent::KeyPressed { key: Key::Character(c), location, text, modifiers })] => {
            assert_eq!(c, "a");
            assert_eq!(*location, Location::Standard);
            assert_eq!(text.as_deref(), Some("A"));
            assert!(modifiers.shift && !modifiers.ctrl);
        }
        other => panic!("unexpected {:?}", other),
    }
    assert!(m.shift);
}

#[test]
fn key_repeats_are_presses() {
    let s = surfaces();
    let mut m = Modifiers::default();
    let ke = key_event(Key::Named(Named::ArrowUp), "", None);
    let r = convert(&s, keyboard(KeyboardEventVariant::Repeat(ke)), &mut m);
    assert!(matches!(
        r.as_slice(),
        [NativeEvent::Keyboard(KeyboardEvent::KeyPressed { key: Key::Named(Named::ArrowUp), text: None, .. })]
    ));
}

#[test]
fn key_releases_carry_no_text() {
    let s = surfaces();
    let mut m = Modifiers { ctrl: true, ..Modifiers::default() };
    let ke = key_event(Key::Unidentified, "", None);
    let r = convert(&s, keyboard(KeyboardEventVariant::Release(ke)), &mut m);
    match r.as_slice() {
        [NativeEvent::Keyboard(KeyboardEvent::KeyReleased { key: Key::Unidentified, modifiers, .. })] => {
            assert!(modifiers.ctrl)
        }
        other => panic!("unexpected {:?}", other),
    }
}

#[test]
fn modifier_changes_update_the_state() {
    let s = surfaces();
    let mut m = Modifiers::default();
    let new_mods = Modifiers { alt: true, logo: true, ..Modifiers::default() };
    let r = convert(&s, keyboard(KeyboardEventVariant::Modifiers(new_mods)), &mut m);
    assert!(matches!(
        r.as_slice(),
        [NativeEvent::Keyboard(KeyboardEvent::ModifiersChanged(n))] if n.alt && n.logo && !n.shift
    ));
    assert!(m.alt && m.logo && !m.shift && !m.ctrl);
    let ke = key_event(Key::Named(Named::Tab), "\t\0", None);
    let r = convert(&s, keyboard(KeyboardEventVariant::Press(ke)), &mut m);
    assert!(matches!(
        r.as_slice(),
        [NativeEvent::Keyboard(KeyboardEvent::KeyPressed { modifiers, .. })] if modifiers.alt && modifiers.logo
    ));
}

#[test]
fn other_events_keep_the_modifiers() {
    let s = surfaces();
    let mut m = shift();
    let _ = convert(&s, pointer(10, PointerEventKind::Enter { serial: 1 }), &mut m);
    let _ = convert(&s, keyboard(KeyboardEventVariant::Enter(10)), &mut m);
    let _ = convert(&s, keyboard(KeyboardEventVariant::Release(key_event(Key::Unidentified, "", None))), &mut m);
    assert!(m.shift && !m.alt && !m.ctrl && !m.logo);
}

#[test]
fn touch_events_pass_through() {
    let s = surfaces();
    let mut m = Modifiers::default();
    let touch = TouchEvent::FingerPressed { id: Finger(4), position: Point::new(1.0, 2.0) };
    let event = SctkEvent::TouchEvent { variant: touch, touch_id: 5, seat_id: 2, surface: 10 };
    let r = convert(&s, event, &mut m);
    assert!(matches!(r.as_slice(), [NativeEvent::Touch(t)] if *t == touch));
}

#[test]
fn closing_is_reported_for_destroyed_surfaces() {
    let s = surfaces();
    let mut m = Modifiers::default();
    let event = SctkEvent::WindowEvent { variant: WindowEventVariant::Close, id: 20 };
    let r = convert(&s, event, &mut m);
    assert!(matches!(r.as_slice(), [NativeEvent::Window(id, WindowEvent::Closed)] if *id == s.closed));
    let alive = SctkEvent::WindowEvent { variant: WindowEventVariant::Close, id: 10 };
    assert!(convert(&s, alive, &mut m).is_empty());
}

#[test]
fn configures_resize_known_surfaces() {
    let s = surfaces();
    let mut m = Modifiers::default();
    let event = SctkEvent::WindowEvent { variant: WindowEventVariant::Configure(size(800, 600), configure(800, 600), 10, true), id: 10 };
    let r = convert(&s, event, &mut m);
    assert!(matches!(
        r.as_slice(),
        [NativeEvent::Window(id, WindowEvent::Resized { width: 800, height: 600 })] if *id == s.window
    ));
    let popup = SctkEvent::WindowEvent { variant: WindowEventVariant::Configure(size(30, 40), configure(30, 40), 11, false), id: 10 };
    let r = convert(&s, popup, &mut m);
    assert!(matches!(
        r.as_slice(),
        [NativeEvent::Window(id, WindowEvent::Resized { width: 30, height: 40 })] if *id == s.popup
    ));
    let unknown = SctkEvent::WindowEvent { variant: WindowEventVariant::Configure(size(1, 1), configure(1, 1), 99, false), id: 10 };
    assert!(convert(&s, unknown, &mut m).is_empty());
}

#[test]
fn other_events_have_no_iced_counterpart() {
    let s = surfaces();
    let mut m = Modifiers::default();
    let id = Id::unique();
    let events = vec![
        SctkEvent::SeatEvent { variant: SeatEventVariant::New, id: 2 },
        SctkEvent::WindowEvent { variant: WindowEventVariant::Created(10, id), id: 10 },
        SctkEvent::WindowEvent { variant: WindowEventVariant::WmCapabilities(WindowManagerCapabilities::MAXIMIZE), id: 10 },
        SctkEvent::WindowEvent { variant: WindowEventVariant::ConfigureBounds { width: 5, height: 5 }, id: 10 },
        SctkEvent::WindowEvent { variant: WindowEventVariant::Size(size(5, 5), 10, false), id: 10 },
        SctkEvent::WindowEvent { variant: WindowEventVariant::StateChanged(WindowState::MAXIMIZED), id: 10 },
        SctkEvent::WindowEvent { variant: WindowEventVariant::ScaleFactorChanged(None), id: 10 },
        SctkEvent::LayerSurfaceEvent { variant: LayerSurfaceEventVariant::Done, id: 12 },
        SctkEvent::LayerSurfaceEvent { variant: LayerSurfaceEventVariant::ScaleFactorChanged(None), id: 12 },
        SctkEvent::PopupEvent { variant: PopupEventVariant::ScaleFactorChanged(None), toplevel_id: 10, parent_id: 10, id: 11 },
        SctkEvent::PopupEvent { variant: PopupEventVariant::Done, toplevel_id: 10, parent_id: 10, id: 11 },
        SctkEvent::PopupEvent { variant: PopupEventVariant::Size(3, 4), toplevel_id: 10, parent_id: 10, id: 11 },
        SctkEvent::NewOutput { id: 30, info: None },
        SctkEvent::RemovedOutput(30),
        SctkEvent::ScaleFactorChanged { id: 30, inner_size: size(100, 100) },
        SctkEvent::DataSource(DataSourceEvent::DndFinished),
        SctkEvent::DataSource(DataSourceEvent::SendDndData { mime_type: "text/plain".to_string() }),
        SctkEvent::DndOffer { event: DndOfferEvent::Motion, surface: 13 },
        SctkEvent::DndOffer { event: DndOfferEvent::Enter { mime_types: vec![] }, surface: 10 },
        SctkEvent::SessionLocked,
        SctkEvent::SessionLockFinished,
        SctkEvent::SessionLockSurfaceCreated { surface: 40, native_id: id },
        SctkEvent::SessionLockSurfaceDone { surface: 40 },
        SctkEvent::SessionLockSurfaceScaleFactorChanged { surface: 40, viewport: None },
        SctkEvent::SessionUnlocked,
    ];
    for event in events {
        assert!(convert(&s, event, &mut m).is_empty());
    }
}

#[test]
fn cloned_events_convert_alike() {
    let s = surfaces();
    let event = keyboard(KeyboardEventVariant::Press(key_event(Key::Unidentified, "a\0", Some("a"))));
    let copy = event.clone();
    let mut m1 = shift();
    let mut m2 = shift();
    let r1 = convert(&s, event, &mut m1);
    let r2 = convert(&s, copy, &mut m2);
    assert_eq!(format!("{:?}", r1), format!("{:?}", r2));
    let configured = SctkEvent::WindowEvent {
        variant: WindowEventVariant::Configure(size(8, 9), configure(8, 9), 10, false),
        id: 10,
    };
    let r = convert(&s, configured.clone(), &mut m1);
    assert!(matches!(r.as_slice(), [NativeEvent::Window(_, WindowEvent::Resized { width: 8, height: 9 })]));
    let _ = configured;
}
