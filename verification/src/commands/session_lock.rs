//! Lock and unlock the session.
use vstd::prelude::*;

use iced_core::window::Id as SurfaceId;
use smithay_client_toolkit::reexports::client::protocol::wl_output::WlOutput;

verus! {

/// A request about the session lock.
#[derive(Debug)]
pub enum Action {
    Lock,
    Unlock,
    /// Create the lock surface with the id on the output.
    LockSurface { id: SurfaceId, output: WlOutput },
    DestroyLockSurface { id: SurfaceId },
}

/// Locks the session.
pub fn lock() -> (r: Action)
    ensures
        r == Action::Lock,
{
    Action::Lock
}

/// Unlocks the session.
pub fn unlock() -> (r: Action)
    ensures
        r == Action::Unlock,
{
    Action::Unlock
}

/// Creates a lock surface on the output.
pub fn get_lock_surface(id: SurfaceId, output: WlOutput) -> (r: Action)
    ensures
        r == (Action::LockSurface { id, output }),
{
    Action::LockSurface { id, output }
}

/// Destroys the lock surface.
pub fn destroy_lock_surface(id: SurfaceId) -> (r: Action)
    ensures
        r == (Action::DestroyLockSurface { id }),
{
    Action::DestroyLockSurface { id }
}

} // verus!
