//! The control plane of the block device: an out-of-band channel carries
//! resize commands while guest traffic is in flight.
//!
//! Resize takes the exclusive lock on the disk state and then on the
//! cross-worker shared state - the same order the request path takes its
//! shared locks - so a resize is atomic with respect to any request.  Here
//! the exclusive borrow plays that part, and the published size is updated
//! only after the image has been resized and re-allocated.

use vstd::prelude::*;

use crate::disk_model::resize_spec;
use crate::disk_state::DiskState;
use crate::virtqueue::Interrupt;

verus! {

/// Errno returned for a resize of a read-only device.
pub const EROFS: i32 = 30;

/// Errno returned when the backend fails to resize or allocate.
pub const EIO: i32 = 5;

/// A command received over the disk control tube.
#[derive(Debug, Clone, Copy, PartialEq, Eq, Structural)]
pub enum DiskControlCommand {
    /// Change the disk size to `new_size` bytes.
    Resize { new_size: u64 },
}

/// The response sent back over the disk control tube: success, or an errno.
pub type DiskControlResult = Result<(), i32>;

/// What a resize to `new_size` does: `EROFS` on a read-only device, `EIO` on
/// a backend failure - in this model, a size the address space cannot hold -
/// and in both error cases the state, the published size included, is left
/// untouched.  On success the image is truncated or zero-extended, becomes
/// non-sparse, and the new size is published.
pub open spec fn resize_post(
    pre: DiskState,
    new_size: u64,
    r: DiskControlResult,
    post: DiskState,
) -> bool {
    &&& post.read_only == pre.read_only
    &&& post.id == pre.id
    &&& (pre.read_only ==> r == Err::<(), i32>(EROFS) && post == pre)
    &&& (!pre.read_only && new_size > usize::MAX ==> r == Err::<(), i32>(EIO) && post == pre)
    &&& (!pre.read_only && new_size <= usize::MAX ==> {
        &&& r == Ok::<(), i32>(())
        &&& post.contents() == resize_spec(pre.contents(), new_size as int)
        &&& post.size() == new_size
        &&& !post.worker_shared_state.sparse
    })
}

/// Resizes the disk to `new_size` bytes, as `resize_post` states.
pub fn resize(disk_state: &mut DiskState, new_size: u64) -> (r: DiskControlResult)
    requires
        old(disk_state).wf(),
    ensures
        final(disk_state).wf(),
        resize_post(*old(disk_state), new_size, r, *final(disk_state)),
{
    if disk_state.read_only {
        return Err(EROFS);
    }
    if new_size > usize::MAX as u64 {
        // The backing store cannot hold the new length: the size is not
        // published and the guest sees `EIO`, as on any backend failure.
        return Err(EIO);
    }
    disk_state.disk_image.set_len(new_size as usize);
    disk_state.disk_image.allocate(0, new_size);
    // Allocation makes the image non-sparse.
    disk_state.worker_shared_state.sparse = false;
    // The new size is published only after both backend steps succeeded.
    let new_disk_size = disk_state.disk_image.get_len();
    disk_state.worker_shared_state.disk_size = new_disk_size;
    Ok(())
}

/// Serves one command received on the control tube: dispatches it, and on a
/// successful resize signals a config change to the guest.  The returned
/// response is what the serving loop sends back over the tube.  (When no
/// tube is configured the serving loop suspends forever; no commands arrive
/// and this is never called.)
pub fn handle_command_tube(
    disk_state: &mut DiskState,
    interrupt: &mut Interrupt,
    command: DiskControlCommand,
) -> (resp: DiskControlResult)
    requires
        old(disk_state).wf(),
    ensures
        final(disk_state).wf(),
        resize_post(*old(disk_state), command->new_size, resp, *final(disk_state)),
        resp is Ok ==> final(interrupt).is_config_changed(),
        resp is Err ==> *final(interrupt) == *old(interrupt),
        final(interrupt).is_signaled() == old(interrupt).is_signaled(),
{
    let resp = match command {
        DiskControlCommand::Resize { new_size } => resize(disk_state, new_size),
    };
    if resp.is_ok() {
        interrupt.signal_config_changed();
    }
    resp
}

/// Serves one command arriving through the vhost-user backend control
/// server.  The dispatch is the same; only the transport that carries the
/// config-change notification differs, and transports are not modelled.
pub fn handle_vhost_user_command_tube(
    disk_state: &mut DiskState,
    interrupt: &mut Interrupt,
    command: DiskControlCommand,
) -> (resp: DiskControlResult)
    requires
        old(disk_state).wf(),
    ensures
        final(disk_state).wf(),
        resize_post(*old(disk_state), command->new_size, resp, *final(disk_state)),
        resp is Ok ==> final(interrupt).is_config_changed(),
        resp is Err ==> *final(interrupt) == *old(interrupt),
        final(interrupt).is_signaled() == old(interrupt).is_signaled(),
{
    handle_command_tube(disk_state, interrupt, command)
}

} // verus!
