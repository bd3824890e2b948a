//! The virtio-block device: construction and validation, feature bits, the
//! config space, and the worker lifecycle of activation and reset.

use vstd::prelude::*;

use crate::block_defs::BlockId;
use crate::block_defs::DEFAULT_NUM_QUEUES;
use crate::block_defs::DEFAULT_QUEUE_SIZE;
use crate::block_defs::DISCARD_SECTOR_ALIGNMENT;
use crate::block_defs::MAX_DISCARD_SECTORS;
use crate::block_defs::MAX_DISCARD_SEG;
use crate::block_defs::MAX_WRITE_ZEROES_SECTORS;
use crate::block_defs::MAX_WRITE_ZEROES_SEG;
use crate::block_defs::SECTOR_SHIFT;
use crate::block_defs::SECTOR_SIZE;
use crate::block_defs::VIRTIO_BLK_F_BLK_SIZE;
use crate::block_defs::VIRTIO_BLK_F_DISCARD;
use crate::block_defs::VIRTIO_BLK_F_FLUSH;
use crate::block_defs::VIRTIO_BLK_F_MQ;
use crate::block_defs::VIRTIO_BLK_F_RO;
use crate::block_defs::VIRTIO_BLK_F_SEG_MAX;
use crate::block_defs::VIRTIO_BLK_F_WRITE_ZEROES;
use crate::bytes::push_u16_le;
use crate::bytes::push_u32_le;
use crate::bytes::push_u64_le;
use crate::bytes::u16_le_bytes;
use crate::bytes::u32_le_bytes;
use crate::bytes::u64_le_bytes;
use crate::control::DiskControlCommand;
use crate::control::DiskControlResult;
use crate::control::handle_command_tube;
use crate::control::resize_post;
use crate::disk_model::Disk;
use crate::disk_state::DiskState;
use crate::virtqueue::Event;
use crate::virtqueue::Interrupt;
use crate::virtqueue::Queue;

verus! {

/// Errno for invalid construction parameters.
pub const EINVAL: i32 = 22;

/// A fatal failure of one of a worker's tasks.
#[derive(Debug, Clone, Copy, PartialEq, Eq, Structural)]
pub enum WorkerError {
    /// The periodic flusher failed.
    Flush(crate::block_defs::ControlError),
    /// The control task failed on its tube.
    Control(crate::block_defs::ExecuteError),
    /// The interrupt-resample task failed.
    Resample(crate::block_defs::ControlError),
}

/// The outcome `run_worker_outcome` reports: the first finished arm with an
/// error - flusher, then control task, then resampler - decides; a `None`
/// stands for an arm still pending when the kill event won.
pub open spec fn run_worker_outcome_spec(
    flush_res: Option<Result<(), crate::block_defs::ControlError>>,
    control_res: Option<Result<(), crate::block_defs::ExecuteError>>,
    resample_res: Option<Result<(), crate::block_defs::ControlError>>,
) -> Result<(), WorkerError> {
    match flush_res {
        Some(Err(e)) => Err(WorkerError::Flush(e)),
        _ => match control_res {
            Some(Err(e)) => Err(WorkerError::Control(e)),
            _ => match resample_res {
                Some(Err(e)) => Err(WorkerError::Resample(e)),
                _ => Ok(()),
            },
        },
    }
}

/// How a worker's run ends once its task selection settles, as
/// `run_worker_outcome_spec` states.
pub fn run_worker_outcome(
    flush_res: Option<Result<(), crate::block_defs::ControlError>>,
    control_res: Option<Result<(), crate::block_defs::ExecuteError>>,
    resample_res: Option<Result<(), crate::block_defs::ControlError>>,
) -> (r: Result<(), WorkerError>)
    ensures
        r == run_worker_outcome_spec(flush_res, control_res, resample_res),
{
    if let Some(Err(e)) = flush_res {
        return Err(WorkerError::Flush(e));
    }
    if let Some(Err(e)) = control_res {
        return Err(WorkerError::Control(e));
    }
    if let Some(Err(e)) = resample_res {
        return Err(WorkerError::Resample(e));
    }
    Ok(())
}

/// The kinds of virtio device this crate models.
#[derive(Debug, Clone, Copy, PartialEq, Eq, Structural)]
pub enum DeviceType {
    /// A block device.
    Block,
}

/// Stand-in for one endpoint of the disk control transport.  Only its
/// ownership is modelled: activation moves it into the worker, reset moves
/// it back.
pub struct Tube {}

impl Tube {
    /// A fresh control endpoint.
    pub fn new() -> Tube {
        Tube {  }
    }
}

/// The device config space of the block device, little-endian on the wire.
/// Only the fields `build_config_space` fills are nonzero.
#[allow(non_camel_case_types)]
pub struct virtio_blk_config {
    pub capacity: u64,
    pub size_max: u32,
    pub seg_max: u32,
    pub cylinders: u16,
    pub heads: u8,
    pub sectors: u8,
    pub blk_size: u32,
    pub physical_block_exp: u8,
    pub alignment_offset: u8,
    pub min_io_size: u16,
    pub opt_io_size: u32,
    pub wce: u8,
    pub unused: u8,
    pub num_queues: u16,
    pub max_discard_sectors: u32,
    pub max_discard_seg: u32,
    pub discard_sector_alignment: u32,
    pub max_write_zeroes_sectors: u32,
    pub max_write_zeroes_seg: u32,
    pub write_zeroes_may_unmap: u8,
}

/// The 60 bytes of the config space, fields little-endian in declaration
/// order, padded with three zero bytes.
pub open spec fn config_bytes(c: virtio_blk_config) -> Seq<u8> {
    u64_le_bytes(c.capacity) + u32_le_bytes(c.size_max) + u32_le_bytes(c.seg_max) + u16_le_bytes(
        c.cylinders,
    ) + seq![c.heads, c.sectors] + u32_le_bytes(c.blk_size) + seq![
        c.physical_block_exp,
        c.alignment_offset,
    ] + u16_le_bytes(c.min_io_size) + u32_le_bytes(c.opt_io_size) + seq![c.wce, c.unused]
        + u16_le_bytes(c.num_queues) + u32_le_bytes(c.max_discard_sectors) + u32_le_bytes(
        c.max_discard_seg,
    ) + u32_le_bytes(c.discard_sector_alignment) + u32_le_bytes(c.max_write_zeroes_sectors)
        + u32_le_bytes(c.max_write_zeroes_seg) + seq![c.write_zeroes_may_unmap, 0u8, 0u8, 0u8]
}

impl virtio_blk_config {
    /// Serialises the config space as the guest reads it.
    pub fn to_bytes(&self) -> (b: Vec<u8>)
        ensures
            b@ == config_bytes(*self),
            b@.len() == 60,
    {
        let mut b: Vec<u8> = Vec::new();
        push_u64_le(&mut b, self.capacity);
        push_u32_le(&mut b, self.size_max);
        push_u32_le(&mut b, self.seg_max);
        push_u16_le(&mut b, self.cylinders);
        b.push(self.heads);
        b.push(self.sectors);
        push_u32_le(&mut b, self.blk_size);
        b.push(self.physical_block_exp);
        b.push(self.alignment_offset);
        push_u16_le(&mut b, self.min_io_size);
        push_u32_le(&mut b, self.opt_io_size);
        b.push(self.wce);
        b.push(self.unused);
        push_u16_le(&mut b, self.num_queues);
        push_u32_le(&mut b, self.max_discard_sectors);
        push_u32_le(&mut b, self.max_discard_seg);
        push_u32_le(&mut b, self.discard_sector_alignment);
        push_u32_le(&mut b, self.max_write_zeroes_sectors);
        push_u32_le(&mut b, self.max_write_zeroes_seg);
        b.push(self.write_zeroes_may_unmap);
        b.push(0u8);
        b.push(0u8);
        b.push(0u8);
        proof {
            assert(b@ =~= config_bytes(*self));
        }
        b
    }
}

/// The feature bits the device advertises: `SEG_MAX` and `BLK_SIZE` always;
/// `RO` when read-only; otherwise `FLUSH`, `WRITE_ZEROES`, and `DISCARD`
/// when sparse; `MQ` with more than one queue.
pub open spec fn avail_features_spec(
    base_features: u64,
    read_only: bool,
    sparse: bool,
    multi_queue: bool,
) -> u64 {
    base_features | (if read_only {
        1u64 << VIRTIO_BLK_F_RO
    } else {
        (if sparse {
            1u64 << VIRTIO_BLK_F_DISCARD
        } else {
            0u64
        }) | (1u64 << VIRTIO_BLK_F_FLUSH) | (1u64 << VIRTIO_BLK_F_WRITE_ZEROES)
    }) | (1u64 << VIRTIO_BLK_F_SEG_MAX) | (1u64 << VIRTIO_BLK_F_BLK_SIZE) | (if multi_queue {
        1u64 << VIRTIO_BLK_F_MQ
    } else {
        0u64
    })
}

/// Whether `q` is a power of two.
pub open spec fn is_power_of_two_u16(q: u16) -> bool {
    q != 0 && q & ((q - 1) as u16) == 0
}

/// The largest number of segments one request may carry: every descriptor
/// but the header's and the status byte's can carry data.
pub fn get_seg_max(queue_size: u16) -> (m: u32)
    ensures
        m == (if queue_size >= 2 {
            queue_size - 2
        } else {
            0int
        }),
{
    if queue_size >= 2 {
        (queue_size - 2) as u32
    } else {
        0
    }
}

/// One worker of the device, owning the queues it drains.  At run time
/// each runs on its own thread with its own executor.
pub struct Worker {
    /// The queues this worker serves, each with its notification event.
    pub queues: Vec<(Queue, Event)>,
}

/// What activation hands the workers, and reset reclaims: the disk state,
/// the interrupt line, and the control endpoint if one was configured.
pub struct ActiveState {
    /// The disk state all workers of the device share.
    pub disk_state: DiskState,
    /// The interrupt line of the device.
    pub interrupt: Interrupt,
    /// The control endpoint, held by the first worker.
    pub tube: Option<Tube>,
}

/// Virtio device exposing block-level read/write operations on a disk
/// image.
pub struct BlockAsync {
    /// The disk image, present while the device is inactive.
    pub disk_image: Option<Disk>,
    /// The published disk size, mirrored from the workers' shared state.
    pub disk_size: u64,
    /// The advertised feature bits.
    pub avail_features: u64,
    /// Whether write-class requests are rejected.
    pub read_only: bool,
    /// Whether the image is sparse.
    pub sparse: bool,
    /// Largest number of data segments per request.
    pub seg_max: u32,
    /// The block size advertised to the guest.
    pub block_size: u32,
    /// The device identifier, handed to the workers on activation.
    pub id: Option<BlockId>,
    /// The control endpoint, present while the device is inactive.
    pub control_tube: Option<Tube>,
    /// The maximum sizes of the device's queues.
    pub queue_sizes: Vec<u16>,
    /// Whether to run one worker per queue.
    pub worker_per_queue: bool,
    /// The running workers; empty while the device is inactive.
    pub worker_threads: Vec<Worker>,
    /// The state shared with the workers while the device is active.
    pub active: Option<ActiveState>,
}

impl BlockAsync {
    /// The published size mirrors the image (inactive) or the workers'
    /// shared state (active); the device is never both; the queue count
    /// fits the config space.
    pub open spec fn wf(self) -> bool {
        &&& (self.disk_image matches Some(d) ==> self.disk_size == d.contents().len())
        &&& (self.active matches Some(a) ==> a.disk_state.wf() && a.disk_state.size()
            == self.disk_size)
        &&& !(self.disk_image is Some && self.active is Some)
        &&& self.queue_sizes@.len() <= u16::MAX
    }

    /// Creates a virtio block device on the given image.
    ///
    /// Fails with `EINVAL` when the block size is not a multiple of the
    /// sector size, when the queue size is not a power of two, or when no
    /// queue is asked for.
    pub fn new(
        base_features: u64,
        disk_image: Disk,
        read_only: bool,
        sparse: bool,
        block_size: u32,
        multiple_workers: bool,
        id: Option<BlockId>,
        control_tube: Option<Tube>,
        queue_size: Option<u16>,
        num_queues: Option<u16>,
    ) -> (r: Result<BlockAsync, i32>)
        ensures
            ({
                let nq = if num_queues is Some {
                    num_queues->0
                } else {
                    DEFAULT_NUM_QUEUES
                };
                let qs = if queue_size is Some {
                    queue_size->0
                } else {
                    DEFAULT_QUEUE_SIZE
                };
                if block_size % (SECTOR_SIZE as u32) != 0 || nq == 0 || !is_power_of_two_u16(qs) {
                    r == Err::<BlockAsync, i32>(EINVAL)
                } else {
                    r matches Ok(b) && {
                        &&& b.wf()
                        &&& b.disk_image matches Some(d) && d.contents()
                            == disk_image.contents()
                        &&& b.disk_size == disk_image.contents().len()
                        &&& b.avail_features == avail_features_spec(
                            base_features,
                            read_only,
                            sparse,
                            nq > 1,
                        )
                        &&& b.read_only == read_only
                        &&& b.sparse == sparse
                        &&& b.seg_max == (if qs >= 2 {
                            qs - 2
                        } else {
                            0int
                        })
                        &&& b.block_size == block_size
                        &&& b.id == id
                        &&& b.control_tube is Some <==> control_tube is Some
                        &&& b.queue_sizes@ == Seq::new(nq as nat, |i: int| qs)
                        &&& b.worker_per_queue == multiple_workers
                        &&& b.worker_threads@.len() == 0
                        &&& b.active is None
                    }
                }
            }),
    {
        if block_size % (SECTOR_SIZE as u32) != 0 {
            return Err(EINVAL);
        }
        let disk_size = disk_image.get_len();
        // When the image is not a multiple of the block size, the remainder
        // is simply not visible to the guest.
        let num_queues = match num_queues {
            Some(n) => n,
            None => DEFAULT_NUM_QUEUES,
        };
        if num_queues == 0 {
            return Err(EINVAL);
        }
        let multi_queue = num_queues > 1;
        let q_size = match queue_size {
            Some(q) => q,
            None => DEFAULT_QUEUE_SIZE,
        };
        if !(q_size != 0 && q_size & (q_size - 1) == 0) {
            return Err(EINVAL);
        }
        let mut queue_sizes: Vec<u16> = Vec::new();
        let mut i: u16 = 0;
        while i < num_queues
            invariant
                i <= num_queues,
                queue_sizes@ =~= Seq::new(i as nat, |j: int| q_size),
            decreases num_queues - i,
        {
            queue_sizes.push(q_size);
            proof {
                assert(queue_sizes@ =~= Seq::new((i + 1) as nat, |j: int| q_size));
            }
            i = i + 1;
        }
        let avail_features = Self::build_avail_features(
            base_features,
            read_only,
            sparse,
            multi_queue,
        );
        let seg_max = get_seg_max(q_size);
        Ok(
            BlockAsync {
                disk_image: Some(disk_image),
                disk_size,
                avail_features,
                read_only,
                sparse,
                seg_max,
                block_size,
                id,
                control_tube,
                queue_sizes,
                worker_per_queue: multiple_workers,
                worker_threads: Vec::new(),
                active: None,
            },
        )
    }

    /// Returns the feature flags for the given attributes.
    pub fn build_avail_features(
        base_features: u64,
        read_only: bool,
        sparse: bool,
        multi_queue: bool,
    ) -> (f: u64)
        ensures
            f == avail_features_spec(base_features, read_only, sparse, multi_queue),
    {
        let mode_bits: u64 = if read_only {
            1u64 << VIRTIO_BLK_F_RO
        } else {
            (if sparse {
                1u64 << VIRTIO_BLK_F_DISCARD
            } else {
                0u64
            }) | (1u64 << VIRTIO_BLK_F_FLUSH) | (1u64 << VIRTIO_BLK_F_WRITE_ZEROES)
        };
        let mq_bit: u64 = if multi_queue {
            1u64 << VIRTIO_BLK_F_MQ
        } else {
            0u64
        };
        base_features | mode_bits | (1u64 << VIRTIO_BLK_F_SEG_MAX) | (1u64 << VIRTIO_BLK_F_BLK_SIZE)
            | mq_bit
    }

    /// Builds the config structure the guest reads: the capacity is the
    /// size in sectors, with a partial trailing sector not exposed.
    pub fn build_config_space(disk_size: u64, seg_max: u32, block_size: u32, num_queues: u16) -> (c:
        virtio_blk_config)
        ensures
            c.capacity == disk_size >> SECTOR_SHIFT,
            c.size_max == 0,
            c.seg_max == seg_max,
            c.blk_size == block_size,
            c.num_queues == num_queues,
            c.max_discard_sectors == MAX_DISCARD_SECTORS,
            c.max_discard_seg == MAX_DISCARD_SEG,
            c.discard_sector_alignment == DISCARD_SECTOR_ALIGNMENT,
            c.max_write_zeroes_sectors == MAX_WRITE_ZEROES_SECTORS,
            c.max_write_zeroes_seg == MAX_WRITE_ZEROES_SEG,
            c.write_zeroes_may_unmap == 1,
            c.cylinders == 0 && c.heads == 0 && c.sectors == 0 && c.physical_block_exp == 0
                && c.alignment_offset == 0 && c.min_io_size == 0 && c.opt_io_size == 0 && c.wce
                == 0 && c.unused == 0,
    {
        virtio_blk_config {
            capacity: disk_size >> SECTOR_SHIFT,
            size_max: 0,
            seg_max,
            cylinders: 0,
            heads: 0,
            sectors: 0,
            blk_size: block_size,
            physical_block_exp: 0,
            alignment_offset: 0,
            min_io_size: 0,
            opt_io_size: 0,
            wce: 0,
            unused: 0,
            num_queues,
            max_discard_sectors: MAX_DISCARD_SECTORS,
            max_discard_seg: MAX_DISCARD_SEG,
            discard_sector_alignment: DISCARD_SECTOR_ALIGNMENT,
            max_write_zeroes_sectors: MAX_WRITE_ZEROES_SECTORS,
            max_write_zeroes_seg: MAX_WRITE_ZEROES_SEG,
            write_zeroes_may_unmap: 1,
        }
    }

    /// The advertised feature bits.
    pub fn features(&self) -> (f: u64)
        ensures
            f == self.avail_features,
    {
        self.avail_features
    }

    /// What kind of virtio device this is.
    pub fn device_type(&self) -> (t: DeviceType)
        ensures
            t == DeviceType::Block,
    {
        DeviceType::Block
    }

    /// The maximum sizes of the device's queues.
    pub fn queue_max_sizes(&self) -> (s: &Vec<u16>)
        ensures
            s@ == self.queue_sizes@,
    {
        &self.queue_sizes
    }

    /// Reads `data.len()` bytes of the config space at `offset`; bytes past
    /// its end are left untouched.
    pub fn read_config(&self, offset: u64, data: &mut Vec<u8>)
        requires
            self.wf(),
        ensures
            final(data)@.len() == old(data)@.len(),
            ({
                let cb = config_bytes(
                    Self::spec_config_space(
                        self.disk_size,
                        self.seg_max,
                        self.block_size,
                        self.queue_sizes@.len() as u16,
                    ),
                );
                forall|i: int|
                    0 <= i < old(data)@.len() ==> final(data)@[i] == (if offset + i < cb.len() {
                        cb[offset + i]
                    } else {
                        old(data)@[i]
                    })
            }),
    {
        let config_space = Self::build_config_space(
            self.disk_size,
            self.seg_max,
            self.block_size,
            self.queue_sizes.len() as u16,
        );
        let cb = config_space.to_bytes();
        let n: usize = data.len();
        let mut i: usize = 0;
        while i < n
            invariant
                i <= n,
                n == old(data)@.len(),
                data@.len() == n,
                cb@ == config_bytes(
                    Self::spec_config_space(
                        self.disk_size,
                        self.seg_max,
                        self.block_size,
                        self.queue_sizes@.len() as u16,
                    ),
                ),
                cb@.len() == 60,
                forall|j: int|
                    0 <= j < i ==> data@[j] == (if offset + j < cb@.len() {
                        cb@[offset + j]
                    } else {
                        old(data)@[j]
                    }),
                forall|j: int| i <= j < n ==> data@[j] == old(data)@[j],
            decreases n - i,
        {
            if offset < 60 && i < 60 - (offset as usize) {
                let src: usize = (offset as usize) + i;
                data.set(i, cb[src]);
            }
            i = i + 1;
        }
    }

    /// The config structure as a spec-level value.
    pub open spec fn spec_config_space(
        disk_size: u64,
        seg_max: u32,
        block_size: u32,
        num_queues: u16,
    ) -> virtio_blk_config {
        virtio_blk_config {
            capacity: disk_size >> SECTOR_SHIFT,
            size_max: 0,
            seg_max,
            cylinders: 0,
            heads: 0,
            sectors: 0,
            blk_size: block_size,
            physical_block_exp: 0,
            alignment_offset: 0,
            min_io_size: 0,
            opt_io_size: 0,
            wce: 0,
            unused: 0,
            num_queues,
            max_discard_sectors: MAX_DISCARD_SECTORS,
            max_discard_seg: MAX_DISCARD_SEG,
            discard_sector_alignment: DISCARD_SECTOR_ALIGNMENT,
            max_write_zeroes_sectors: MAX_WRITE_ZEROES_SECTORS,
            max_write_zeroes_seg: MAX_WRITE_ZEROES_SEG,
            write_zeroes_may_unmap: 1,
        }
    }

    /// Activates the device: moves the disk image, the ID and the control
    /// endpoint to the workers and starts them.  With one worker per queue
    /// enabled - and an image that supports cloning, which an in-memory
    /// image always does - each queue gets its own worker; otherwise one
    /// worker owns every queue.
    pub fn activate(&mut self, interrupt: Interrupt, queues: Vec<(Queue, Event)>) -> (r: Result<
        (),
        (),
    >)
        requires
            old(self).wf(),
        ensures
            final(self).wf(),
            old(self).disk_image is None ==> (r is Err && *final(self) == *old(self)),
            old(self).disk_image matches Some(d) ==> {
                &&& r is Ok
                &&& final(self).worker_threads@.len() == (if old(self).worker_per_queue {
                    queues@.len()
                } else {
                    1
                })
                &&& (old(self).worker_per_queue ==> forall|i: int|
                    0 <= i < queues@.len()
                        ==> (#[trigger] final(self).worker_threads@[i]).queues@ =~= seq![
                        queues@[i],
                    ])
                &&& (!old(self).worker_per_queue ==> final(self).worker_threads@[0].queues@
                    == queues@)
                &&& final(self).disk_image is None
                &&& final(self).control_tube is None
                &&& final(self).id is None
                &&& final(self).active matches Some(a) && {
                    &&& a.disk_state.disk_image.contents() == d.contents()
                    &&& a.disk_state.read_only == old(self).read_only
                    &&& a.disk_state.id == old(self).id
                    &&& a.disk_state.size() == old(self).disk_size
                    &&& a.disk_state.worker_shared_state.sparse == old(self).sparse
                    &&& (a.tube is Some <==> old(self).control_tube is Some)
                    &&& !a.interrupt.is_signaled() == !interrupt.is_signaled()
                    &&& a.interrupt == interrupt
                }
                &&& final(self).disk_size == old(self).disk_size
                &&& final(self).read_only == old(self).read_only
                &&& final(self).queue_sizes == old(self).queue_sizes
            },
    {
        let disk_image = match self.disk_image.take() {
            Some(d) => d,
            None => {
                return Err(());
            },
        };
        let id = self.id.take();
        let control_tube = self.control_tube.take();
        let read_only = self.read_only;
        let sparse = self.sparse;

        // One queue per worker when enabled; an in-memory image always
        // clones, and all clones share one modelled image.
        let mut worker_threads: Vec<Worker> = Vec::new();
        if self.worker_per_queue {
            let mut qs = queues;
            let ghost qs0 = qs@;
            while qs.len() > 0
                invariant
                    worker_threads@.len() + qs@.len() == qs0.len(),
                    qs@ == qs0.skip(worker_threads@.len() as int),
                    forall|i: int|
                        0 <= i < worker_threads@.len() ==> (#[trigger] worker_threads@[i]).queues@
                            =~= seq![qs0[i]],
                decreases qs.len(),
            {
                let ghost done = worker_threads@.len() as int;
                let q = qs.remove(0);
                proof {
                    assert(qs0.skip(done)[0] == qs0[done]);
                    assert(qs@ =~= qs0.skip(done + 1));
                }
                let mut one: Vec<(Queue, Event)> = Vec::new();
                one.push(q);
                worker_threads.push(Worker { queues: one });
            }
        } else {
            worker_threads.push(Worker { queues });
        }

        let disk_state = DiskState::new(disk_image, self.disk_size, read_only, sparse, id);
        self.active = Some(ActiveState { disk_state, interrupt, tube: control_tube });
        self.worker_threads = worker_threads;
        Ok(())
    }

    /// Stops the workers and reclaims the disk image and the control
    /// endpoint, so the device can be activated again.  Returns whether any
    /// worker was running; calling it twice returns `false` the second
    /// time, with nothing left to do.
    pub fn reset(&mut self) -> (r: bool)
        requires
            old(self).wf(),
        ensures
            final(self).wf(),
            r == (old(self).worker_threads@.len() > 0),
            final(self).worker_threads@.len() == 0,
            final(self).active is None,
            old(self).active matches Some(a) ==> {
                &&& final(self).disk_image matches Some(d) && d.contents()
                    == a.disk_state.disk_image.contents()
                &&& final(self).disk_size == old(self).disk_size
                &&& (a.tube is Some ==> final(self).control_tube is Some)
                &&& (a.tube is None ==> final(self).control_tube == old(self).control_tube)
            },
            old(self).active is None ==> (final(self).disk_image == old(self).disk_image
                && final(self).control_tube == old(self).control_tube),
            final(self).disk_size == old(self).disk_size,
            final(self).read_only == old(self).read_only,
            final(self).queue_sizes == old(self).queue_sizes,
    {
        let success = self.worker_threads.len() > 0;
        self.worker_threads = Vec::new();
        match self.active.take() {
            Some(a) => {
                let ActiveState { disk_state, interrupt: _, tube } = a;
                self.disk_image = Some(disk_state.disk_image);
                if let Some(t) = tube {
                    self.control_tube = Some(t);
                }
            },
            None => {},
        }
        success
    }

    /// Serves one control-tube command through the active worker, as the
    /// control task does: dispatches it, publishes the result to the
    /// config-space mirror, and signals a config change on success.
    pub fn handle_control(&mut self, command: DiskControlCommand) -> (resp: DiskControlResult)
        requires
            old(self).wf(),
            old(self).active is Some,
        ensures
            final(self).wf(),
            final(self).active is Some,
            ({
                let a0 = old(self).active->0;
                let a1 = final(self).active->0;
                &&& resize_post(a0.disk_state, command->new_size, resp, a1.disk_state)
                &&& final(self).disk_size == a1.disk_state.size()
                &&& (resp is Ok ==> a1.interrupt.is_config_changed())
                &&& (resp is Err ==> a1.interrupt == a0.interrupt)
            }),
            final(self).worker_threads == old(self).worker_threads,
            final(self).disk_image == old(self).disk_image,
            final(self).read_only == old(self).read_only,
            final(self).queue_sizes == old(self).queue_sizes,
    {
        let mut a = match self.active.take() {
            Some(a) => a,
            None => {
                proof {
                    assert(false);
                }
                return Err(EINVAL);
            },
        };
        let resp = handle_command_tube(&mut a.disk_state, &mut a.interrupt, command);
        self.disk_size = a.disk_state.worker_shared_state.disk_size;
        self.active = Some(a);
        resp
    }
}

} // verus!
