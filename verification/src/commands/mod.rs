//! The platform actions that an iced application asks of the Wayland layer.
//!
//! Each function here names one request; the value it returns is the action
//! that the runtime's custom command carries to the Wayland event loop.
pub mod activation;
pub mod data_device;
pub mod layer_surface;
pub mod popup;
pub mod session_lock;
pub mod window;
