//! What holds of every conversion of sctk events into iced events.
use vstd::prelude::*;

use crate::sctk_event::{
    modifiers_after, native_events, resolves_key, Key, KeyEvent, KeyboardEvent,
    KeyboardEventVariant, Modifiers, MouseEvent, NativeEvent, ObjectKey, PointerEvent,
    PointerEventKind, SctkEvent, SurfaceIdWrapper, SurfaceSize, WindowConfigure, WindowEvent,
    WindowEventVariant,
};

verus! {

/// The keyboard focus entering or leaving a surface is reported exactly when
/// the surface is one of the application's windows, and then for that window.
pub proof fn focus_is_reported_for_windows_only(
    event: SctkEvent,
    modifiers: Modifiers,
    surface_ids: Map<ObjectKey, SurfaceIdWrapper>,
    destroyed_surface_ids: Map<ObjectKey, SurfaceIdWrapper>,
    subsurface_ids: Map<ObjectKey, (i32, i32, SurfaceIdWrapper)>,
    out: Seq<NativeEvent>,
    surface: ObjectKey,
)
    requires
        event matches SctkEvent::KeyboardEvent { variant, .. } && (variant == KeyboardEventVariant::Enter(surface) || variant == KeyboardEventVariant::Leave(surface)),
        native_events(event, modifiers, surface_ids, destroyed_surface_ids, subsurface_ids, out),
    ensures
        out.len() == 1 <==> (surface_ids.contains_key(surface) && surface_ids[surface] is Window),
        out.len() <= 1,
        out.len() == 1 ==> (out[0] matches NativeEvent::Window(id, _) && id == surface_ids[surface].inner_id()),
{
}

/// Every key press, repeat or release is reported under the modifiers in force
/// before the event.
pub proof fn key_events_carry_modifiers_in_force(
    event: SctkEvent,
    modifiers: Modifiers,
    surface_ids: Map<ObjectKey, SurfaceIdWrapper>,
    destroyed_surface_ids: Map<ObjectKey, SurfaceIdWrapper>,
    subsurface_ids: Map<ObjectKey, (i32, i32, SurfaceIdWrapper)>,
    out: Seq<NativeEvent>,
)
    requires
        event matches SctkEvent::KeyboardEvent { variant, .. } && (variant is Press || variant is Repeat || variant is Release),
        native_events(event, modifiers, surface_ids, destroyed_surface_ids, subsurface_ids, out),
    ensures
        out.len() == 1,
        out[0] matches NativeEvent::Keyboard(k) && match k {
            KeyboardEvent::KeyPressed { modifiers: m, .. } => m == modifiers,
            KeyboardEvent::KeyReleased { modifiers: m, .. } => m == modifiers,
            KeyboardEvent::ModifiersChanged(_) => false,
        },
        modifiers_after(event, modifiers) == modifiers,
{
}

/// After the modifiers change, the next key event is reported under the new
/// modifiers, whatever they were before.
pub proof fn key_event_after_modifiers_change(
    first: SctkEvent,
    second: SctkEvent,
    modifiers: Modifiers,
    new_modifiers: Modifiers,
    surface_ids: Map<ObjectKey, SurfaceIdWrapper>,
    destroyed_surface_ids: Map<ObjectKey, SurfaceIdWrapper>,
    subsurface_ids: Map<ObjectKey, (i32, i32, SurfaceIdWrapper)>,
    out: Seq<NativeEvent>,
)
    requires
        first matches SctkEvent::KeyboardEvent { variant, .. } && variant == KeyboardEventVariant::Modifiers(new_modifiers),
        second matches SctkEvent::KeyboardEvent { variant, .. } && variant is Press,
        native_events(
            second,
            modifiers_after(first, modifiers),
            surface_ids,
            destroyed_surface_ids,
            subsurface_ids,
            out,
        ),
    ensures
        out.len() == 1,
        out[0] matches NativeEvent::Keyboard(KeyboardEvent::KeyPressed { modifiers: m, .. }) && m == new_modifiers,
{
}

/// Only keyboard modifier events change the modifiers in force, and they set
/// them to the modifiers they carry.
pub proof fn only_modifier_events_change_modifiers(event: SctkEvent, modifiers: Modifiers)
    ensures
        (event matches SctkEvent::KeyboardEvent { variant, .. } && variant is Modifiers)
            || modifiers_after(event, modifiers) == modifiers,
        event matches SctkEvent::KeyboardEvent { variant: KeyboardEventVariant::Modifiers(m), .. }
            ==> modifiers_after(event, modifiers) == m,
{
}

/// A pointer moving on a surface that is not a subsurface is reported where it
/// is, with no offset.
pub proof fn motion_outside_subsurfaces_has_no_offset(
    event: SctkEvent,
    modifiers: Modifiers,
    surface_ids: Map<ObjectKey, SurfaceIdWrapper>,
    destroyed_surface_ids: Map<ObjectKey, SurfaceIdWrapper>,
    subsurface_ids: Map<ObjectKey, (i32, i32, SurfaceIdWrapper)>,
    out: Seq<NativeEvent>,
)
    requires
        event matches SctkEvent::PointerEvent { variant, .. } && variant.kind is Motion && !subsurface_ids.contains_key(variant.surface),
        native_events(event, modifiers, surface_ids, destroyed_surface_ids, subsurface_ids, out),
    ensures
        out =~= seq![NativeEvent::Mouse(MouseEvent::CursorMoved { x_offset: 0, y_offset: 0 })],
{
}

/// A key that the keymap identifies is reported as the keymap gives it; one it
/// does not identify is reported as a character only when the keysym has a
/// text, and then never as an empty one.
pub proof fn resolved_keys_keep_keymap_keys(keymap_key: Key, keysym_text: Seq<char>, key: Key)
    requires
        resolves_key(keymap_key, keysym_text, key),
    ensures
        !(keymap_key is Unidentified) ==> key == keymap_key,
        keymap_key is Unidentified ==> (key matches Key::Character(c) ==> c@.len() > 0),
        keymap_key is Unidentified && keysym_text.len() <= 1 ==> key is Unidentified,
        keymap_key is Unidentified && keysym_text.len() > 1 ==> (key matches Key::Character(c)
            && c@ == keysym_text.drop_last()),
{
}

/// The key that a key event is reported with, whatever the text: the keymap's
/// key where the keymap identifies it; else the character of the keysym's text
/// without its last character (xkbcommon's terminating NUL), where that leaves
/// any text; else an unidentified key.
pub open spec fn is_key_of(ke: KeyEvent, key: Key) -> bool {
    let text = ke.keysym_utf8@;
    &&& !(ke.keymap.key is Unidentified) ==> key == ke.keymap.key
    &&& ke.keymap.key is Unidentified && text.len() > 1 ==> (key matches Key::Character(c) && c@
        == text.drop_last())
    &&& ke.keymap.key is Unidentified && text.len() <= 1 ==> key is Unidentified
}

/// A key press or repeat is reported as one key press carrying the event's key
/// (as `is_key_of` says), the keymap's location, exactly the text the event
/// entered, and the modifiers in force.
pub proof fn key_presses_and_repeats_report_key_text_and_modifiers(
    event: SctkEvent,
    ke: KeyEvent,
    modifiers: Modifiers,
    surface_ids: Map<ObjectKey, SurfaceIdWrapper>,
    destroyed_surface_ids: Map<ObjectKey, SurfaceIdWrapper>,
    subsurface_ids: Map<ObjectKey, (i32, i32, SurfaceIdWrapper)>,
    out: Seq<NativeEvent>,
)
    requires
        event matches SctkEvent::KeyboardEvent { variant, .. } && (variant == KeyboardEventVariant::Press(ke) || variant == KeyboardEventVariant::Repeat(ke)),
        native_events(event, modifiers, surface_ids, destroyed_surface_ids, subsurface_ids, out),
    ensures
        out.len() == 1,
        out[0] matches NativeEvent::Keyboard(KeyboardEvent::KeyPressed { .. }),
        out[0] matches NativeEvent::Keyboard(KeyboardEvent::KeyPressed { key, location, text, modifiers: m }) ==> {
            &&& is_key_of(ke, key)
            &&& location == ke.keymap.location
            &&& text == ke.utf8
            &&& m == modifiers
        },
{
}

/// A key release is reported as one key release carrying the event's key (as
/// `is_key_of` says, as for a press), the keymap's location and the modifiers
/// in force.
pub proof fn key_releases_report_the_resolved_key(
    event: SctkEvent,
    ke: KeyEvent,
    modifiers: Modifiers,
    surface_ids: Map<ObjectKey, SurfaceIdWrapper>,
    destroyed_surface_ids: Map<ObjectKey, SurfaceIdWrapper>,
    subsurface_ids: Map<ObjectKey, (i32, i32, SurfaceIdWrapper)>,
    out: Seq<NativeEvent>,
)
    requires
        event matches SctkEvent::KeyboardEvent { variant, .. } && variant == KeyboardEventVariant::Release(ke),
        native_events(event, modifiers, surface_ids, destroyed_surface_ids, subsurface_ids, out),
    ensures
        out.len() == 1,
        out[0] matches NativeEvent::Keyboard(KeyboardEvent::KeyReleased { .. }),
        out[0] matches NativeEvent::Keyboard(KeyboardEvent::KeyReleased { key, location, modifiers: m }) ==> {
            &&& is_key_of(ke, key)
            &&& location == ke.keymap.location
            &&& m == modifiers
        },
{
}

/// The two keys are the same key: equal, or characters of the same text.
pub open spec fn same_key(a: Key, b: Key) -> bool {
    match (a, b) {
        (Key::Character(x), Key::Character(y)) => x@ == y@,
        _ => a == b,
    }
}

/// The release of a key event reports the same key as the press of that key
/// event does, whatever the modifiers and surfaces at either time.
pub proof fn release_reports_the_key_of_the_press(
    ke: KeyEvent,
    press_modifiers: Modifiers,
    release_modifiers: Modifiers,
    kbd_id: ObjectKey,
    seat_id: ObjectKey,
    surface_ids: Map<ObjectKey, SurfaceIdWrapper>,
    destroyed_surface_ids: Map<ObjectKey, SurfaceIdWrapper>,
    subsurface_ids: Map<ObjectKey, (i32, i32, SurfaceIdWrapper)>,
    pressed: Seq<NativeEvent>,
    released: Seq<NativeEvent>,
)
    requires
        native_events(
            SctkEvent::KeyboardEvent { variant: KeyboardEventVariant::Press(ke), kbd_id, seat_id },
            press_modifiers,
            surface_ids,
            destroyed_surface_ids,
            subsurface_ids,
            pressed,
        ),
        native_events(
            SctkEvent::KeyboardEvent { variant: KeyboardEventVariant::Release(ke), kbd_id, seat_id },
            release_modifiers,
            surface_ids,
            destroyed_surface_ids,
            subsurface_ids,
            released,
        ),
    ensures
        pressed.len() == 1 && released.len() == 1,
        pressed[0] matches NativeEvent::Keyboard(KeyboardEvent::KeyPressed { key: p, .. }) && released[0] matches NativeEvent::Keyboard(KeyboardEvent::KeyReleased { key: r, .. }) ==> same_key(p, r),
{
    key_presses_and_repeats_report_key_text_and_modifiers(
        SctkEvent::KeyboardEvent { variant: KeyboardEventVariant::Press(ke), kbd_id, seat_id },
        ke,
        press_modifiers,
        surface_ids,
        destroyed_surface_ids,
        subsurface_ids,
        pressed,
    );
    key_releases_report_the_resolved_key(
        SctkEvent::KeyboardEvent { variant: KeyboardEventVariant::Release(ke), kbd_id, seat_id },
        ke,
        release_modifiers,
        surface_ids,
        destroyed_surface_ids,
        subsurface_ids,
        released,
    );
}

/// Every configure of a window on a surface known to the application is
/// reported as that surface's iced window resized to the configured size,
/// whatever size (or none) the compositor suggested and whatever state the
/// configure holds; a configure of an unknown surface is not reported.
pub proof fn configures_of_known_surfaces_report_the_size(
    size: SurfaceSize,
    configure: WindowConfigure,
    surface: ObjectKey,
    first: bool,
    id: ObjectKey,
    modifiers: Modifiers,
    surface_ids: Map<ObjectKey, SurfaceIdWrapper>,
    destroyed_surface_ids: Map<ObjectKey, SurfaceIdWrapper>,
    subsurface_ids: Map<ObjectKey, (i32, i32, SurfaceIdWrapper)>,
    out: Seq<NativeEvent>,
)
    requires
        native_events(
            SctkEvent::WindowEvent { variant: WindowEventVariant::Configure(size, configure, surface, first), id },
            modifiers,
            surface_ids,
            destroyed_surface_ids,
            subsurface_ids,
            out,
        ),
    ensures
        out.len() == 1 <==> surface_ids.contains_key(surface),
        out.len() <= 1,
        surface_ids.contains_key(surface) ==> out[0] == NativeEvent::Window(
            surface_ids[surface].inner_id(),
            WindowEvent::Resized { width: size.width, height: size.height },
        ),
{
}

/// The close of a window is reported, as the iced window closed, exactly when
/// the window is among the destroyed surfaces, whatever kind of surface it was.
pub proof fn closes_are_reported_for_destroyed_surfaces(
    id: ObjectKey,
    modifiers: Modifiers,
    surface_ids: Map<ObjectKey, SurfaceIdWrapper>,
    destroyed_surface_ids: Map<ObjectKey, SurfaceIdWrapper>,
    subsurface_ids: Map<ObjectKey, (i32, i32, SurfaceIdWrapper)>,
    out: Seq<NativeEvent>,
)
    requires
        native_events(
            SctkEvent::WindowEvent { variant: WindowEventVariant::Close, id },
            modifiers,
            surface_ids,
            destroyed_surface_ids,
            subsurface_ids,
            out,
        ),
    ensures
        out.len() == 1 <==> destroyed_surface_ids.contains_key(id),
        out.len() <= 1,
        destroyed_surface_ids.contains_key(id) ==> out[0] == NativeEvent::Window(
            destroyed_surface_ids[id].inner_id(),
            WindowEvent::Closed,
        ),
{
}

/// A pointer motion on a subsurface is reported with the offset its entry
/// gives, whatever kind of surface its parent is; elsewhere with no offset.
pub proof fn motion_reports_the_subsurface_offset(
    surface: ObjectKey,
    time: u32,
    ptr_id: ObjectKey,
    seat_id: ObjectKey,
    modifiers: Modifiers,
    surface_ids: Map<ObjectKey, SurfaceIdWrapper>,
    destroyed_surface_ids: Map<ObjectKey, SurfaceIdWrapper>,
    subsurface_ids: Map<ObjectKey, (i32, i32, SurfaceIdWrapper)>,
    out: Seq<NativeEvent>,
)
    requires
        native_events(
            SctkEvent::PointerEvent {
                variant: PointerEvent { surface, kind: PointerEventKind::Motion { time } },
                ptr_id,
                seat_id,
            },
            modifiers,
            surface_ids,
            destroyed_surface_ids,
            subsurface_ids,
            out,
        ),
    ensures
        out.len() == 1,
        subsurface_ids.contains_key(surface) ==> out[0] == NativeEvent::Mouse(
            MouseEvent::CursorMoved {
                x_offset: subsurface_ids[surface].0,
                y_offset: subsurface_ids[surface].1,
            },
        ),
        !subsurface_ids.contains_key(surface) ==> out[0] == NativeEvent::Mouse(
            MouseEvent::CursorMoved { x_offset: 0, y_offset: 0 },
        ),
{
}

/// Pointer events are reported as the matching iced mouse events: entering
/// and leaving as the cursor entering and leaving, a press or release of a
/// button that names an iced button as that button pressed or released, a
/// scroll that amounts to an iced scroll as the wheel scrolled by it; a button
/// or scroll that names nothing is not reported.
pub proof fn pointer_events_report_the_matching_mouse_event(
    variant: PointerEvent,
    ptr_id: ObjectKey,
    seat_id: ObjectKey,
    modifiers: Modifiers,
    surface_ids: Map<ObjectKey, SurfaceIdWrapper>,
    destroyed_surface_ids: Map<ObjectKey, SurfaceIdWrapper>,
    subsurface_ids: Map<ObjectKey, (i32, i32, SurfaceIdWrapper)>,
    out: Seq<NativeEvent>,
)
    requires
        native_events(
            SctkEvent::PointerEvent { variant, ptr_id, seat_id },
            modifiers,
            surface_ids,
            destroyed_surface_ids,
            subsurface_ids,
            out,
        ),
    ensures
        variant.kind is Enter ==> out.len() == 1 && out[0] == NativeEvent::Mouse(MouseEvent::CursorEntered),
        variant.kind is Leave ==> out.len() == 1 && out[0] == NativeEvent::Mouse(MouseEvent::CursorLeft),
        variant.kind matches PointerEventKind::Press { button: Some(b), .. } ==> out.len() == 1
            && out[0] == NativeEvent::Mouse(MouseEvent::ButtonPressed(b)),
        variant.kind matches PointerEventKind::Release { button: Some(b), .. } ==> out.len() == 1
            && out[0] == NativeEvent::Mouse(MouseEvent::ButtonReleased(b)),
        variant.kind matches PointerEventKind::Axis { delta: Some(d), .. } ==> out.len() == 1
            && out[0] == NativeEvent::Mouse(MouseEvent::WheelScrolled { delta: d }),
        variant.kind matches PointerEventKind::Press { button: None, .. } ==> out.len() == 0,
        variant.kind matches PointerEventKind::Release { button: None, .. } ==> out.len() == 0,
        variant.kind matches PointerEventKind::Axis { delta: None, .. } ==> out.len() == 0,
{
}

/// A change of the modifiers is reported as exactly that change.
pub proof fn modifier_changes_are_reported(
    new_modifiers: Modifiers,
    kbd_id: ObjectKey,
    seat_id: ObjectKey,
    modifiers: Modifiers,
    surface_ids: Map<ObjectKey, SurfaceIdWrapper>,
    destroyed_surface_ids: Map<ObjectKey, SurfaceIdWrapper>,
    subsurface_ids: Map<ObjectKey, (i32, i32, SurfaceIdWrapper)>,
    out: Seq<NativeEvent>,
)
    requires
        native_events(
            SctkEvent::KeyboardEvent { variant: KeyboardEventVariant::Modifiers(new_modifiers), kbd_id, seat_id },
            modifiers,
            surface_ids,
            destroyed_surface_ids,
            subsurface_ids,
            out,
        ),
    ensures
        out.len() == 1,
        out[0] == NativeEvent::Keyboard(KeyboardEvent::ModifiersChanged(new_modifiers)),
{
}

/// A touch event is reported unchanged, whatever surface it is on.
pub proof fn touch_events_pass_unchanged(
    touch: iced_core::touch::Event,
    touch_id: ObjectKey,
    seat_id: ObjectKey,
    surface: ObjectKey,
    modifiers: Modifiers,
    surface_ids: Map<ObjectKey, SurfaceIdWrapper>,
    destroyed_surface_ids: Map<ObjectKey, SurfaceIdWrapper>,
    subsurface_ids: Map<ObjectKey, (i32, i32, SurfaceIdWrapper)>,
    out: Seq<NativeEvent>,
)
    requires
        native_events(
            SctkEvent::TouchEvent { variant: touch, touch_id, seat_id, surface },
            modifiers,
            surface_ids,
            destroyed_surface_ids,
            subsurface_ids,
            out,
        ),
    ensures
        out.len() == 1,
        out[0] == NativeEvent::Touch(touch),
{
}

/// Seat, output, layer surface, popup, drag and drop, data source and session
/// lock events have no iced counterpart, nor do window events other than
/// closes and configures.
pub proof fn other_events_report_nothing(
    event: SctkEvent,
    modifiers: Modifiers,
    surface_ids: Map<ObjectKey, SurfaceIdWrapper>,
    destroyed_surface_ids: Map<ObjectKey, SurfaceIdWrapper>,
    subsurface_ids: Map<ObjectKey, (i32, i32, SurfaceIdWrapper)>,
    out: Seq<NativeEvent>,
)
    requires
        !(event is PointerEvent || event is KeyboardEvent || event is TouchEvent),
        event matches SctkEvent::WindowEvent { variant, .. } ==> !(variant is Close || variant is Configure),
        native_events(event, modifiers, surface_ids, destroyed_surface_ids, subsurface_ids, out),
    ensures
        out.len() == 0,
{
}

} // verus!
