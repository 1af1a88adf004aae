//! Ask for activation tokens and activate surfaces (xdg-activation).
use vstd::prelude::*;

use iced_core::window::Id as SurfaceId;

verus! {

/// A request about activation; `F` is the type of the function that turns the
/// token obtained, if any, into the application's message.
#[derive(Debug)]
pub enum Action<F> {
    RequestToken { app_id: Option<String>, window: Option<SurfaceId>, message: F },
    Activate { window: SurfaceId, token: String },
}

/// Requests an activation token for the app id and window; `to_message` turns
/// the token obtained, if any, into the application's message.
pub fn request_token<Message, F: FnOnce(Option<String>) -> Message>(
    app_id: Option<String>,
    window: Option<SurfaceId>,
    to_message: F,
) -> (r: Action<F>)
    ensures
        r == (Action::RequestToken { app_id, window, message: to_message }),
{
    Action::RequestToken { app_id, window, message: to_message }
}

/// Activates the window with the token.
pub fn activate<F>(window: SurfaceId, token: String) -> (r: Action<F>)
    ensures
        r == (Action::<F>::Activate { window, token }),
{
    Action::Activate { window, token }
}

} // verus!
