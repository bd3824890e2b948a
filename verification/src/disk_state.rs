//! Per-worker disk state and the state shared by all workers of one device.
//!
//! The shared state sits behind an asynchronous reader-writer mutex:
//! requests take both locks shared, resize takes both exclusive, so no
//! request ever observes a half-finished resize.  In this synchronous model
//! exclusivity is carried by `&mut`; the lock discipline itself is modelled
//! and proved in `rwlock_model`.

use vstd::prelude::*;

use crate::block_defs::BlockId;
use crate::disk_model::Disk;

verus! {

/// Disk state that other worker threads may also observe: the published disk
/// size and whether the image is sparse.
pub struct WorkerSharedState {
    /// Current size of the disk in bytes, as config-space reads observe it.
    pub disk_size: u64,
    /// Whether the image is sparse, enabling discard.
    pub sparse: bool,
}

/// The state of one worker's disk: the image handle, the read-only flag, the
/// optional 20-byte ID, and the cross-worker shared state.
pub struct DiskState {
    /// The disk image.
    pub disk_image: Disk,
    /// Whether write-class requests are rejected.
    pub read_only: bool,
    /// The device identifier returned by `GET_ID`, if one is configured.
    pub id: Option<BlockId>,
    /// State shared by all workers of the device.
    pub worker_shared_state: WorkerSharedState,
}

impl DiskState {
    /// The published size always equals the image's real length; resize
    /// updates the size only after the image has been resized.
    pub open spec fn wf(self) -> bool {
        self.worker_shared_state.disk_size == self.disk_image.contents().len()
    }

    /// The bytes of the disk image.
    pub open spec fn contents(self) -> Seq<u8> {
        self.disk_image.contents()
    }

    /// The published disk size in bytes.
    pub open spec fn size(self) -> u64 {
        self.worker_shared_state.disk_size
    }

    /// Creates a `DiskState` with the given parameters.
    pub fn new(disk_image: Disk, disk_size: u64, read_only: bool, sparse: bool, id: Option<
        BlockId,
    >) -> (ds: DiskState)
        requires
            disk_size == disk_image.contents().len(),
        ensures
            ds.wf(),
            ds.disk_image == disk_image,
            ds.read_only == read_only,
            ds.id == id,
            ds.worker_shared_state.disk_size == disk_size,
            ds.worker_shared_state.sparse == sparse,
    {
        DiskState {
            disk_image,
            read_only,
            id,
            worker_shared_state: WorkerSharedState { disk_size, sparse },
        }
    }
}

} // verus!
