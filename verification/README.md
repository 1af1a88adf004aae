# iced_sctk

The decisions of the Wayland layer (smithay-client-toolkit) under an iced
application, verified with Verus.

- `src/sctk_event.rs`: the events of the Wayland client toolkit, in the form the
  conversion reads them (each Wayland object known by a key of its own), and
  `SctkEvent::to_native`, which gives the iced events each stands for while
  keeping track of the keyboard modifiers.
- `src/event_laws.rs`: what holds of every such conversion.
- `src/commands/`: the Wayland requests an application can make (layer
  surfaces, windows, popups, session lock, activation, drag and drop), each
  function giving the action it requests.
- `src/external_types.rs`: the outside types the library carries through.
- `app/`: what runs against iced and sctk themselves: wrapping actions in iced
  commands, giving Wayland objects their keys, reading sctk pointer events and
  window configures into the library's form, asking xkbcommon for a keysym's
  text, turning the library's events into iced events, and the widget
  operations.
