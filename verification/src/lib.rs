//! Decisions of the Wayland (smithay-client-toolkit) layer under an iced
//! application: which native iced events an sctk event stands for, and which
//! platform action each Wayland command requests.
pub mod external_types;
pub mod sctk_event;
pub mod commands;
pub mod event_laws;
