//! Events of the Wayland client toolkit (sctk) and the iced events they stand for.
//!
//! A Wayland object (surface, seat, output, ...) is known here by its protocol
//! id, an [`ObjectKey`]; the maps that tell the surfaces of the application
//! apart are keyed by it.
use vstd::prelude::*;

use iced_core::keyboard::key::Named;
use iced_core::keyboard::Location;
use iced_core::mouse::{Button, ScrollDelta};
use iced_core::window::Id as SurfaceId;
use smithay_client_toolkit::reexports::client::protocol::wl_data_device_manager::DndAction;
use smithay_client_toolkit::seat::Capability;
use smithay_client_toolkit::output::OutputInfo;
use smithay_client_toolkit::reexports::csd_frame::{WindowManagerCapabilities, WindowState};
use smithay_client_toolkit::session_lock::SessionLockSurfaceConfigure;
use smithay_client_toolkit::shell::wlr_layer::LayerSurfaceConfigure;
use smithay_client_toolkit::shell::xdg::popup::PopupConfigure;
use smithay_client_toolkit::shell::xdg::window::DecorationMode;
use wayland_protocols::wp::viewporter::client::wp_viewport::WpViewport;
use std::collections::HashMap;
use std::time::Instant;

verus! {

broadcast use vstd::std_specs::hash::group_hash_axioms;

/// A key that names one Wayland object (surface, seat, output, ...) for the
/// whole life of the application: no two objects may be given the same key.
/// The protocol id of an object alone does not do, since Wayland hands the id
/// of a destroyed object to a new one.
pub type ObjectKey = u64;

/// Describes the reason the event loop is resuming.
#[derive(Debug, Clone, Copy, PartialEq, Eq)]
pub enum StartCause {
    /// The time requested by a timed wait has been reached. Holds the moment the
    /// wait was requested and the requested resume time.
    ResumeTimeReached { start: Instant, requested_resume: Instant },
    /// New events arrived after a wait was requested. Holds the moment the
    /// wait was requested and the resume time, if one was requested.
    WaitCancelled { start: Instant, requested_resume: Option<Instant> },
    /// The loop resumes after its control flow was set to poll.
    Poll,
    /// Sent once, right after the loop starts.
    Init,
}

/// Pending update to a window requested by the user.
#[derive(Debug, Clone, Copy)]
pub struct SurfaceUserRequest {
    /// Whether `redraw` was requested.
    pub redraw_requested: bool,
    /// Whether the frame should be refreshed.
    pub refresh_frame: bool,
}

impl Default for SurfaceUserRequest {
    fn default() -> (r: Self)
        ensures
            !r.redraw_requested,
            !r.refresh_frame,
    {
        SurfaceUserRequest { redraw_requested: false, refresh_frame: false }
    }
}

/// The size of a surface.
#[derive(Debug, Clone, Copy)]
pub struct SurfaceSize {
    pub width: u32,
    pub height: u32,
}

/// A compositor request to resize a window or change its state.
#[derive(Debug, Clone, Copy)]
pub struct WindowConfigure {
    /// The suggested new size of the window; each side is nonzero where given.
    pub new_size: (Option<u32>, Option<u32>),
    /// The suggested maximum bounds for the window.
    pub suggested_bounds: Option<(u32, u32)>,
    /// The decoration mode set by the compositor.
    pub decoration_mode: DecorationMode,
    /// The current state of the window.
    pub state: WindowState,
    /// The capabilities supported by the compositor.
    pub capabilities: WindowManagerCapabilities,
}

/// The window update coming from the compositor.
#[derive(Debug, Clone)]
pub struct SurfaceCompositorUpdate {
    /// New window configure.
    pub configure: Option<WindowConfigure>,
    /// New scale factor.
    pub scale_factor: Option<i32>,
}

impl Default for SurfaceCompositorUpdate {
    fn default() -> (r: Self)
        ensures
            r.configure is None,
            r.scale_factor is None,
    {
        SurfaceCompositorUpdate { configure: None, scale_factor: None }
    }
}

/// The iced id of a surface of the application, with the kind of surface it is.
#[derive(Debug, Clone, Copy)]
pub enum SurfaceIdWrapper {
    LayerSurface(SurfaceId),
    Window(SurfaceId),
    Popup(SurfaceId),
    Dnd(SurfaceId),
    SessionLock(SurfaceId),
}

impl SurfaceIdWrapper {
    /// The iced id, whatever the kind of surface.
    pub open spec fn inner_id(self) -> SurfaceId {
        match self {
            SurfaceIdWrapper::LayerSurface(id) => id,
            SurfaceIdWrapper::Window(id) => id,
            SurfaceIdWrapper::Popup(id) => id,
            SurfaceIdWrapper::Dnd(id) => id,
            SurfaceIdWrapper::SessionLock(id) => id,
        }
    }

    /// The iced id, whatever the kind of surface.
    pub fn inner(&self) -> (r: SurfaceId)
        ensures
            r == self.inner_id(),
    {
        match self {
            SurfaceIdWrapper::LayerSurface(id) => *id,
            SurfaceIdWrapper::Window(id) => *id,
            SurfaceIdWrapper::Popup(id) => *id,
            SurfaceIdWrapper::Dnd(id) => *id,
            SurfaceIdWrapper::SessionLock(id) => *id,
        }
    }
}

/// The state of the keyboard modifiers: whether each is pressed or toggled.
#[derive(Debug, Clone, Copy)]
pub struct Modifiers {
    pub ctrl: bool,
    pub alt: bool,
    pub shift: bool,
    pub caps_lock: bool,
    pub logo: bool,
    pub num_lock: bool,
}

impl Default for Modifiers {
    fn default() -> (r: Self)
        ensures
            !r.ctrl && !r.alt && !r.shift && !r.caps_lock && !r.logo && !r.num_lock,
    {
        Modifiers {
            ctrl: false,
            alt: false,
            shift: false,
            caps_lock: false,
            logo: false,
            num_lock: false,
        }
    }
}

/// A key on the keyboard, as iced reports it.
#[derive(Debug, Clone)]
pub enum Key {
    /// A key with an established name.
    Named(Named),
    /// The character typed by the key.
    Character(String),
    /// A key that could not be identified.
    Unidentified,
}

/// What the keymap tells of one keysym.
#[derive(Debug, Clone)]
pub struct KeymapReading {
    /// The key that the keymap gives for the keysym.
    pub key: Key,
    /// The location that the keymap gives for the keysym.
    pub location: Location,
}

/// The text of `s` without its last character (the terminating NUL that
/// xkbcommon appends), if it has one.
pub open spec fn without_terminator(s: Seq<char>) -> Seq<char> {
    if s.len() > 0 {
        s.drop_last()
    } else {
        s
    }
}

/// The key reported for a keysym: the keymap's key, or, where the keymap does
/// not identify it, the character that the keysym's text (`keysym_text`, as
/// xkbcommon gives it) stands for, if any.
pub open spec fn resolves_key(keymap_key: Key, keysym_text: Seq<char>, key: Key) -> bool {
    match keymap_key {
        Key::Unidentified => {
            let text = without_terminator(keysym_text);
            if text.len() > 0 {
                key matches Key::Character(c) && c@ == text
            } else {
                key is Unidentified
            }
        },
        _ => key == keymap_key,
    }
}

/// Resolves a keysym into the key and location that iced reports, given what
/// the keymap tells of it and the keysym's text as xkbcommon gives it (with its
/// terminating NUL), which serves where the keymap does not identify the key.
pub fn keysym_to_vkey_location(keymap: KeymapReading, keysym_utf8: String) -> (r: (Key, Location))
    ensures
        resolves_key(keymap.key, keysym_utf8@, r.0),
        r.1 == keymap.location,
{
    let KeymapReading { key, location } = keymap;
    let key = match key {
        Key::Unidentified => {
            let text = keysym_utf8.as_str();
            let len = text.unicode_len();
            if len > 1 {
                Key::Character(String::from_str(text.substring_char(0, len - 1)))
            } else {
                Key::Unidentified
            }
        },
        other => other,
    };
    (key, location)
}

/// A key event of the keyboard.
#[derive(Debug, Clone)]
pub struct KeyEvent {
    /// Time at which the key event occurred.
    pub time: u32,
    /// The raw code of the key.
    pub raw_code: u32,
    /// The raw value of the interpreted symbol of the key.
    pub keysym: u32,
    /// The text entered; `None` on release events.
    pub utf8: Option<String>,
    /// What the keymap tells of `keysym`.
    pub keymap: KeymapReading,
    /// What `xkbcommon::xkb::keysym_to_utf8` returns for `keysym`: its UTF-8
    /// text followed by a terminating NUL, or empty when it has none.
    pub keysym_utf8: String,
}

/// What happened to a seat.
#[derive(Debug, Clone, Copy)]
pub enum SeatEventVariant {
    New,
    Remove,
    NewCapability(Capability, ObjectKey),
    RemoveCapability(Capability, ObjectKey),
}

/// What a pointer did. Its position, a pair of floating-point coordinates, is
/// not held here: the library only decides the offset to add to it.
#[derive(Debug, Clone, Copy)]
pub enum PointerEventKind {
    Enter { serial: u32 },
    Leave { serial: u32 },
    Motion { time: u32 },
    /// A button press; `button` is the iced button that the pointer's button code names, if any.
    Press { time: u32, button: Option<Button>, serial: u32 },
    /// A button release; `button` is the iced button that the pointer's button code names, if any.
    Release { time: u32, button: Option<Button>, serial: u32 },
    /// A scroll; `delta` is the iced scroll movement it amounts to, if any.
    Axis { time: u32, delta: Option<ScrollDelta> },
}

/// A pointer event on a surface.
#[derive(Debug, Clone, Copy)]
pub struct PointerEvent {
    /// The surface the pointer is on.
    pub surface: ObjectKey,
    pub kind: PointerEventKind,
}

/// What a keyboard did.
#[derive(Debug, Clone)]
pub enum KeyboardEventVariant {
    /// The keyboard focus left the surface.
    Leave(ObjectKey),
    /// The keyboard focus entered the surface.
    Enter(ObjectKey),
    Press(KeyEvent),
    Repeat(KeyEvent),
    Release(KeyEvent),
    /// The modifiers changed to these.
    Modifiers(Modifiers),
}

/// What happened to a window (an xdg toplevel).
#[derive(Debug, Clone)]
pub enum WindowEventVariant {
    Created(ObjectKey, SurfaceId),
    /// The compositor asks to close the window.
    Close,
    /// The compositor told its window manager capabilities.
    WmCapabilities(WindowManagerCapabilities),
    /// The compositor told the bounds for the window.
    ConfigureBounds { width: u32, height: u32 },
    /// The window on the surface was configured to the new size (both
    /// nonzero); the flag tells whether it is the first configure.
    Configure(SurfaceSize, WindowConfigure, ObjectKey, bool),
    Size(SurfaceSize, ObjectKey, bool),
    /// The state of the window changed.
    StateChanged(WindowState),
    /// The scale factor changed (its value, a floating-point number, is not
    /// held here); the viewport of the window, if it has one.
    ScaleFactorChanged(Option<WpViewport>),
}

/// What happened to a popup.
#[derive(Debug, Clone)]
pub enum PopupEventVariant {
    Created(ObjectKey, SurfaceId),
    /// The popup was dismissed.
    Done,
    Configure(PopupConfigure, ObjectKey, bool),
    RepositionionedPopup { token: u32 },
    Size(u32, u32),
    /// The scale factor changed (its value is not held here).
    ScaleFactorChanged(Option<WpViewport>),
}

/// What happened to a layer surface.
#[derive(Debug, Clone)]
pub enum LayerSurfaceEventVariant {
    Created(ObjectKey, SurfaceId),
    /// The layer surface was closed.
    Done,
    Configure(LayerSurfaceConfigure, ObjectKey, bool),
    /// The scale factor changed (its value is not held here).
    ScaleFactorChanged(Option<WpViewport>),
}

/// Events of the data source of a drag and drop.
#[derive(Debug, Clone)]
pub enum DataSourceEvent {
    /// A DnD action has been accepted by the compositor for the source.
    DndActionAccepted(DndAction),
    /// A DnD mime type has been accepted by a client for the source.
    MimeAccepted(Option<String>),
    DndFinished,
    DndCancelled,
    DndDropPerformed,
    /// Send the selection data of this mime type to the clipboard.
    SendSelectionData { mime_type: String },
    /// Send the DnD data of this mime type to the destination.
    SendDndData { mime_type: String },
}

/// Events of a drag and drop offer. The pointer coordinates of `Enter` and
/// `Motion` are not held here.
#[derive(Debug, Clone)]
pub enum DndOfferEvent {
    /// An offer has been introduced with the given mime types.
    Enter { mime_types: Vec<String> },
    Leave,
    Motion,
    DropPerformed,
    /// The data read for the mime type.
    Data { data: Vec<u8>, mime_type: String },
    SourceActions(DndAction),
    SelectedAction(DndAction),
}

/// An event of the Wayland client toolkit, holding what the conversion to iced reads.
#[derive(Debug, Clone)]
pub enum SctkEvent {
    SeatEvent { variant: SeatEventVariant, id: ObjectKey },
    PointerEvent { variant: PointerEvent, ptr_id: ObjectKey, seat_id: ObjectKey },
    KeyboardEvent { variant: KeyboardEventVariant, kbd_id: ObjectKey, seat_id: ObjectKey },
    TouchEvent {
        variant: iced_core::touch::Event,
        touch_id: ObjectKey,
        seat_id: ObjectKey,
        surface: ObjectKey,
    },
    WindowEvent { variant: WindowEventVariant, id: ObjectKey },
    LayerSurfaceEvent { variant: LayerSurfaceEventVariant, id: ObjectKey },
    PopupEvent {
        variant: PopupEventVariant,
        /// this may be the key of a window or layer surface
        toplevel_id: ObjectKey,
        /// this may be any surface
        parent_id: ObjectKey,
        /// the key of this popup
        id: ObjectKey,
    },
    NewOutput { id: ObjectKey, info: Option<OutputInfo> },
    UpdateOutput { id: ObjectKey, info: OutputInfo },
    RemovedOutput(ObjectKey),
    /// The scale factor of the output changed (its value is not held here);
    /// the inner size is in physical pixels.
    ScaleFactorChanged { id: ObjectKey, inner_size: SurfaceSize },
    DataSource(DataSourceEvent),
    DndOffer { event: DndOfferEvent, surface: ObjectKey },
    SessionLocked,
    SessionLockFinished,
    SessionLockSurfaceCreated { surface: ObjectKey, native_id: SurfaceId },
    SessionLockSurfaceConfigure { surface: ObjectKey, configure: SessionLockSurfaceConfigure, first: bool },
    SessionLockSurfaceDone { surface: ObjectKey },
    /// The scale factor changed (its value is not held here).
    SessionLockSurfaceScaleFactorChanged { surface: ObjectKey, viewport: Option<WpViewport> },
    SessionUnlocked,
}

/// A mouse event as iced reports it.
#[derive(Debug, Clone, Copy)]
pub enum MouseEvent {
    CursorEntered,
    CursorLeft,
    /// The cursor moved; the offset is what is added to the pointer position
    /// on the surface to place it in the iced surface that holds it.
    CursorMoved { x_offset: i32, y_offset: i32 },
    ButtonPressed(Button),
    ButtonReleased(Button),
    WheelScrolled { delta: ScrollDelta },
}

/// A keyboard event as iced reports it.
#[derive(Debug)]
pub enum KeyboardEvent {
    KeyPressed { key: Key, location: Location, text: Option<String>, modifiers: Modifiers },
    KeyReleased { key: Key, location: Location, modifiers: Modifiers },
    ModifiersChanged(Modifiers),
}

/// A window event as iced reports it.
#[derive(Debug, Clone, Copy)]
pub enum WindowEvent {
    Focused,
    Unfocused,
    Closed,
    Resized { width: u32, height: u32 },
}

/// An iced event.
#[derive(Debug)]
pub enum NativeEvent {
    Mouse(MouseEvent),
    Keyboard(KeyboardEvent),
    Window(SurfaceId, WindowEvent),
    Touch(iced_core::touch::Event),
}


/// The offset of the surface inside the iced surface that holds it: its
/// subsurface offset where it is a subsurface, else none.
pub open spec fn subsurface_offset(
    subsurface_ids: Map<ObjectKey, (i32, i32, SurfaceIdWrapper)>,
    surface: ObjectKey,
) -> (i32, i32) {
    if subsurface_ids.contains_key(surface) {
        (subsurface_ids[surface].0, subsurface_ids[surface].1)
    } else {
        (0, 0)
    }
}

/// A keyboard focus change is reported for the windows of the application only.
pub open spec fn window_focus_events(
    surface_ids: Map<ObjectKey, SurfaceIdWrapper>,
    surface: ObjectKey,
    event: WindowEvent,
) -> Seq<NativeEvent> {
    if surface_ids.contains_key(surface) && surface_ids[surface] is Window {
        seq![NativeEvent::Window(surface_ids[surface].inner_id(), event)]
    } else {
        seq![]
    }
}

/// The window event on the iced surface that the map gives for the key, if any.
pub open spec fn surface_window_events(
    ids: Map<ObjectKey, SurfaceIdWrapper>,
    surface: ObjectKey,
    event: WindowEvent,
) -> Seq<NativeEvent> {
    if ids.contains_key(surface) {
        seq![NativeEvent::Window(ids[surface].inner_id(), event)]
    } else {
        seq![]
    }
}

/// `out` reports the press of the key of `ke` under the modifiers in force.
pub open spec fn is_key_pressed(ke: KeyEvent, modifiers: Modifiers, out: NativeEvent) -> bool {
    &&& out matches NativeEvent::Keyboard(KeyboardEvent::KeyPressed { key, location, text, modifiers: m })
    &&& resolves_key(ke.keymap.key, ke.keysym_utf8@, key)
    &&& location == ke.keymap.location
    &&& text == ke.utf8
    &&& m == modifiers
}

/// `out` reports the release of the key of `ke` under the modifiers in force.
pub open spec fn is_key_released(ke: KeyEvent, modifiers: Modifiers, out: NativeEvent) -> bool {
    &&& out matches NativeEvent::Keyboard(KeyboardEvent::KeyReleased { key, location, modifiers: m })
    &&& resolves_key(ke.keymap.key, ke.keysym_utf8@, key)
    &&& location == ke.keymap.location
    &&& m == modifiers
}

/// The mouse event of an optional button or scroll, or none.
pub open spec fn optional_mouse_event(event: Option<MouseEvent>) -> Seq<NativeEvent> {
    match event {
        Some(e) => seq![NativeEvent::Mouse(e)],
        None => seq![],
    }
}

/// `out` is the list of iced events that the sctk event stands for, given the
/// modifiers in force and the maps of the surfaces of the application (those
/// alive, those destroyed, and the subsurfaces with their offsets).
pub open spec fn native_events(
    event: SctkEvent,
    modifiers: Modifiers,
    surface_ids: Map<ObjectKey, SurfaceIdWrapper>,
    destroyed_surface_ids: Map<ObjectKey, SurfaceIdWrapper>,
    subsurface_ids: Map<ObjectKey, (i32, i32, SurfaceIdWrapper)>,
    out: Seq<NativeEvent>,
) -> bool {
    match event {
        SctkEvent::PointerEvent { variant, .. } => match variant.kind {
            PointerEventKind::Enter { .. } => out =~= seq![NativeEvent::Mouse(MouseEvent::CursorEntered)],
            PointerEventKind::Leave { .. } => out =~= seq![NativeEvent::Mouse(MouseEvent::CursorLeft)],
            PointerEventKind::Motion { .. } => {
                let offset = subsurface_offset(subsurface_ids, variant.surface);
                out =~= seq![NativeEvent::Mouse(MouseEvent::CursorMoved { x_offset: offset.0, y_offset: offset.1 })]
            },
            PointerEventKind::Press { button, .. } => out =~= optional_mouse_event(
                match button { Some(b) => Some(MouseEvent::ButtonPressed(b)), None => None },
            ),
            PointerEventKind::Release { button, .. } => out =~= optional_mouse_event(
                match button { Some(b) => Some(MouseEvent::ButtonReleased(b)), None => None },
            ),
            PointerEventKind::Axis { delta, .. } => out =~= optional_mouse_event(
                match delta { Some(d) => Some(MouseEvent::WheelScrolled { delta: d }), None => None },
            ),
        },
        SctkEvent::KeyboardEvent { variant, .. } => match variant {
            KeyboardEventVariant::Leave(surface) => out =~= window_focus_events(surface_ids, surface, WindowEvent::Unfocused),
            KeyboardEventVariant::Enter(surface) => out =~= window_focus_events(surface_ids, surface, WindowEvent::Focused),
            KeyboardEventVariant::Press(ke) => out.len() == 1 && is_key_pressed(ke, modifiers, out[0]),
            KeyboardEventVariant::Repeat(ke) => out.len() == 1 && is_key_pressed(ke, modifiers, out[0]),
            KeyboardEventVariant::Release(ke) => out.len() == 1 && is_key_released(ke, modifiers, out[0]),
            KeyboardEventVariant::Modifiers(m) => out =~= seq![NativeEvent::Keyboard(KeyboardEvent::ModifiersChanged(m))],
        },
        SctkEvent::TouchEvent { variant, .. } => out =~= seq![NativeEvent::Touch(variant)],
        SctkEvent::WindowEvent { variant, id } => match variant {
            WindowEventVariant::Close => out =~= surface_window_events(destroyed_surface_ids, id, WindowEvent::Closed),
            WindowEventVariant::Configure(SurfaceSize { width, height }, _, surface, _) => out =~= surface_window_events(
                surface_ids, surface, WindowEvent::Resized { width, height },
            ),
            _ => out.len() == 0,
        },
        _ => out.len() == 0,
    }
}

/// The modifiers in force after the event: those it sets, if it sets any.
pub open spec fn modifiers_after(event: SctkEvent, modifiers: Modifiers) -> Modifiers {
    match event {
        SctkEvent::KeyboardEvent { variant: KeyboardEventVariant::Modifiers(m), .. } => m,
        _ => modifiers,
    }
}

/// The window event on the iced surface that the map gives for the key, if any.
fn window_events_on(
    ids: &HashMap<ObjectKey, SurfaceIdWrapper>,
    surface: ObjectKey,
    event: WindowEvent,
) -> (r: Vec<NativeEvent>)
    ensures
        r@ == surface_window_events(ids@, surface, event),
{
    match ids.get(&surface) {
        Some(id) => vec![NativeEvent::Window(id.inner(), event)],
        None => Vec::new(),
    }
}

/// The focus change, where the surface is a window of the application.
fn window_focus(
    surface_ids: &HashMap<ObjectKey, SurfaceIdWrapper>,
    surface: ObjectKey,
    event: WindowEvent,
) -> (r: Vec<NativeEvent>)
    ensures
        r@ == window_focus_events(surface_ids@, surface, event),
{
    match surface_ids.get(&surface) {
        Some(SurfaceIdWrapper::Window(id)) => vec![NativeEvent::Window(*id, event)],
        _ => Vec::new(),
    }
}

/// The mouse event, if there is one.
fn mouse_event(event: Option<MouseEvent>) -> (r: Vec<NativeEvent>)
    ensures
        r@ == optional_mouse_event(event),
{
    match event {
        Some(e) => vec![NativeEvent::Mouse(e)],
        None => Vec::new(),
    }
}

impl SctkEvent {
    /// Converts the event into the iced events it stands for, keeping track of
    /// the keyboard modifiers in force.
    ///
    /// The maps give, by the protocol id of a surface, the iced surfaces of the
    /// application, those that were destroyed, and the subsurfaces with their
    /// offset inside their parent.
    pub fn to_native(
        self,
        modifiers: &mut Modifiers,
        surface_ids: &HashMap<ObjectKey, SurfaceIdWrapper>,
        destroyed_surface_ids: &HashMap<ObjectKey, SurfaceIdWrapper>,
        subsurface_ids: &HashMap<ObjectKey, (i32, i32, SurfaceIdWrapper)>,
    ) -> (r: Vec<NativeEvent>)
        ensures
            native_events(
                self,
                *old(modifiers),
                surface_ids@,
                destroyed_surface_ids@,
                subsurface_ids@,
                r@,
            ),
            *final(modifiers) == modifiers_after(self, *old(modifiers)),
            r.len() <= 1,
    {
        match self {
            SctkEvent::PointerEvent { variant, .. } => match variant.kind {
                PointerEventKind::Enter { .. } => vec![NativeEvent::Mouse(MouseEvent::CursorEntered)],
                PointerEventKind::Leave { .. } => vec![NativeEvent::Mouse(MouseEvent::CursorLeft)],
                PointerEventKind::Motion { .. } => {
                    let (x_offset, y_offset) = match subsurface_ids.get(&variant.surface) {
                        Some((x, y, _)) => (*x, *y),
                        None => (0, 0),
                    };
                    vec![NativeEvent::Mouse(MouseEvent::CursorMoved { x_offset, y_offset })]
                },
                PointerEventKind::Press { button, .. } => mouse_event(
                    match button {
                        Some(b) => Some(MouseEvent::ButtonPressed(b)),
                        None => None,
                    },
                ),
                PointerEventKind::Release { button, .. } => mouse_event(
                    match button {
                        Some(b) => Some(MouseEvent::ButtonReleased(b)),
                        None => None,
                    },
                ),
                PointerEventKind::Axis { delta, .. } => mouse_event(
                    match delta {
                        Some(d) => Some(MouseEvent::WheelScrolled { delta: d }),
                        None => None,
                    },
                ),
            },
            SctkEvent::KeyboardEvent { variant, .. } => match variant {
                KeyboardEventVariant::Leave(surface) => window_focus(surface_ids, surface, WindowEvent::Unfocused),
                KeyboardEventVariant::Enter(surface) => window_focus(surface_ids, surface, WindowEvent::Focused),
                KeyboardEventVariant::Press(ke) => {
                    let (key, location) = keysym_to_vkey_location(ke.keymap, ke.keysym_utf8);
                    vec![NativeEvent::Keyboard(KeyboardEvent::KeyPressed {
                        key,
                        location,
                        text: ke.utf8,
                        modifiers: *modifiers,
                    })]
                },
                KeyboardEventVariant::Repeat(ke) => {
                    let (key, location) = keysym_to_vkey_location(ke.keymap, ke.keysym_utf8);
                    vec![NativeEvent::Keyboard(KeyboardEvent::KeyPressed {
                        key,
                        location,
                        text: ke.utf8,
                        modifiers: *modifiers,
                    })]
                },
                KeyboardEventVariant::Release(ke) => {
                    let (key, location) = keysym_to_vkey_location(ke.keymap, ke.keysym_utf8);
                    vec![NativeEvent::Keyboard(KeyboardEvent::KeyReleased {
                        key,
                        location,
                        modifiers: *modifiers,
                    })]
                },
                KeyboardEventVariant::Modifiers(new_mods) => {
                    *modifiers = new_mods;
                    vec![NativeEvent::Keyboard(KeyboardEvent::ModifiersChanged(new_mods))]
                },
            },
            SctkEvent::TouchEvent { variant, .. } => vec![NativeEvent::Touch(variant)],
            SctkEvent::WindowEvent { variant, id } => match variant {
                WindowEventVariant::Close => window_events_on(destroyed_surface_ids, id, WindowEvent::Closed),
                WindowEventVariant::Configure(SurfaceSize { width, height }, _, surface, _) => window_events_on(
                    surface_ids,
                    surface,
                    WindowEvent::Resized { width, height },
                ),
                _ => Vec::new(),
            },
            _ => Vec::new(),
        }
    }
}


/// The events of the event loop of the application; `T` is the type of the
/// application's own events, `I` that of the icon of a drag and `S` that of
/// the state of a subsurface.
#[derive(Debug)]
pub enum IcedSctkEvent<T, I, S> {
    /// New events arrive from the OS to be processed.
    NewEvents(StartCause),
    /// An event of the application.
    UserEvent(T),
    /// An event produced by sctk.
    SctkEvent(SctkEvent),
    /// All input events were processed; redraw processing is about to begin.
    MainEventsCleared,
    /// The surface should be redrawn.
    RedrawRequested(ObjectKey),
    /// All redraws were processed.
    RedrawEventsCleared,
    /// The event loop is being shut down; this is the last event.
    LoopDestroyed,
    /// A drag and drop source was created with an icon surface.
    DndSurfaceCreated(ObjectKey, I, SurfaceId),
    /// A frame callback of the surface, with its time.
    Frame(ObjectKey, u32),
    Subcompositor(S),
}

} // verus!
