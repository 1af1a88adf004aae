//! Interact with the data device objects of your application.
use vstd::prelude::*;

use iced_core::window::Id as SurfaceId;
use smithay_client_toolkit::reexports::client::protocol::wl_data_device_manager::DndAction;

verus! {

/// A request about drag and drop; `I` is the type of the icon of a drag (with
/// its offset) and `D` that of the source of its data by mime type.
#[derive(Debug)]
pub enum ActionInner<I, D> {
    /// Start an internal drag and drop operation.
    StartInternalDnd { origin_id: SurfaceId, icon_id: Option<SurfaceId> },
    /// Start a drag and drop operation.
    StartDnd {
        mime_types: Vec<String>,
        actions: DndAction,
        origin_id: SurfaceId,
        icon_id: Option<I>,
        data: D,
    },
    /// Set the accepted and preferred actions.
    SetActions { preferred: DndAction, accepted: DndAction },
    /// Accept a mime type, or reject the drag with `None`.
    Accept(Option<String>),
    /// Read the data of the mime type.
    RequestDndData(String),
    DndFinished,
    DndCancelled,
}

/// Starts an internal drag and drop operation. Events will only be delivered to
/// the same client. The client is responsible for data transfer.
pub fn start_internal_drag<I, D>(origin_id: SurfaceId, icon_id: Option<SurfaceId>) -> (r:
    ActionInner<I, D>)
    ensures
        r == (ActionInner::<I, D>::StartInternalDnd { origin_id, icon_id }),
{
    ActionInner::StartInternalDnd { origin_id, icon_id }
}

/// Starts a drag and drop operation. When a client asks for the selection, an
/// event will be delivered to the client with the fd to write the data to.
pub fn start_drag<I, D>(
    mime_types: Vec<String>,
    actions: DndAction,
    origin_id: SurfaceId,
    icon_id: Option<I>,
    data: D,
) -> (r: ActionInner<I, D>)
    ensures
        r == (ActionInner::StartDnd { mime_types, actions, origin_id, icon_id, data }),
{
    ActionInner::StartDnd { mime_types, actions, origin_id, icon_id, data }
}

/// Sets the accepted and preferred drag and drop actions.
pub fn set_actions<I, D>(preferred: DndAction, accepted: DndAction) -> (r: ActionInner<I, D>)
    ensures
        r == (ActionInner::<I, D>::SetActions { preferred, accepted }),
{
    ActionInner::SetActions { preferred, accepted }
}

/// Accepts a mime type, or `None` to reject the drag and drop operation.
pub fn accept_mime_type<I, D>(mime_type: Option<String>) -> (r: ActionInner<I, D>)
    ensures
        r == ActionInner::<I, D>::Accept(mime_type),
{
    ActionInner::Accept(mime_type)
}

/// Reads drag and drop data. This will trigger an event with the data.
pub fn request_dnd_data<I, D>(mime_type: String) -> (r: ActionInner<I, D>)
    ensures
        r == ActionInner::<I, D>::RequestDndData(mime_type),
{
    ActionInner::RequestDndData(mime_type)
}

/// Finishes the drag and drop operation.
pub fn finish_dnd<I, D>() -> (r: ActionInner<I, D>)
    ensures
        r == ActionInner::<I, D>::DndFinished,
{
    ActionInner::DndFinished
}

/// Cancels the drag and drop operation.
pub fn cancel_dnd<I, D>() -> (r: ActionInner<I, D>)
    ensures
        r == ActionInner::<I, D>::DndCancelled,
{
    ActionInner::DndCancelled
}

/// Runs a generic drag action.
pub fn action<I, D>(inner: ActionInner<I, D>) -> (r: ActionInner<I, D>)
    ensures
        r == inner,
{
    inner
}

} // verus!
