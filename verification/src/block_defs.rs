//! Wire-level constants of the virtio-block device and the error taxonomy of
//! its request pipeline and control plane.

use vstd::prelude::*;

verus! {

/// Default size of each virtqueue when none is requested.
pub const DEFAULT_QUEUE_SIZE: u16 = 256;

/// Default number of virtqueues when none is requested.
pub const DEFAULT_NUM_QUEUES: u16 = 16;

/// Sectors are `1 << SECTOR_SHIFT` bytes.
pub const SECTOR_SHIFT: u64 = 9;

/// Size of one sector in bytes: `1 << SECTOR_SHIFT`.
pub const SECTOR_SIZE: u64 = 512;

/// Largest sector number whose byte offset still fits in 64 bits.
pub const MAX_SECTOR: u64 = u64::MAX >> SECTOR_SHIFT;

pub const MAX_DISCARD_SECTORS: u32 = u32::MAX;

pub const MAX_WRITE_ZEROES_SECTORS: u32 = u32::MAX;

/// Arbitrary limits for the number of discard/write-zeroes segments.
pub const MAX_DISCARD_SEG: u32 = 32;

pub const MAX_WRITE_ZEROES_SEG: u32 = 32;

/// Discard alignment of 64 KiB, expressed in 512-byte sectors.
pub const DISCARD_SECTOR_ALIGNMENT: u32 = 128;

// Request types of the 16-byte virtio-block request header.
pub const VIRTIO_BLK_T_IN: u32 = 0;

pub const VIRTIO_BLK_T_OUT: u32 = 1;

pub const VIRTIO_BLK_T_FLUSH: u32 = 4;

pub const VIRTIO_BLK_T_GET_ID: u32 = 8;

pub const VIRTIO_BLK_T_DISCARD: u32 = 11;

pub const VIRTIO_BLK_T_WRITE_ZEROES: u32 = 13;

// Status codes written to the final byte of each descriptor chain.
pub const VIRTIO_BLK_S_OK: u8 = 0;

pub const VIRTIO_BLK_S_IOERR: u8 = 1;

pub const VIRTIO_BLK_S_UNSUPP: u8 = 2;

// Feature bit positions advertised by the device.
pub const VIRTIO_BLK_F_SEG_MAX: u64 = 2;

pub const VIRTIO_BLK_F_RO: u64 = 5;

pub const VIRTIO_BLK_F_BLK_SIZE: u64 = 6;

pub const VIRTIO_BLK_F_FLUSH: u64 = 9;

pub const VIRTIO_BLK_F_MQ: u64 = 12;

pub const VIRTIO_BLK_F_DISCARD: u64 = 13;

pub const VIRTIO_BLK_F_WRITE_ZEROES: u64 = 14;

/// The only flag bit accepted in a discard/write-zeroes segment, and only for
/// write-zeroes.
pub const VIRTIO_BLK_DISCARD_WRITE_ZEROES_FLAG_UNMAP: u32 = 0x1;

/// Length of the virtio-block ID string field.
pub const ID_LEN: usize = 20;

/// Virtio block device identifier.
/// An ASCII string terminated by a NUL byte, unless all 20 bytes are used, in
/// which case the terminator is omitted.
pub type BlockId = [u8; 20];

/// Errors arising while executing a single block request.  Every variant but
/// `Unsupported` is reported to the guest as the `IOERR` status; `Unsupported`
/// is reported as `UNSUPP`.
#[derive(Debug, Clone, Copy, PartialEq, Eq, Structural)]
pub enum ExecuteError {
    /// The configured ID string did not fit in the descriptor's data region.
    CopyId,
    /// A discard or write-zeroes segment carried a flag the device rejects.
    DiscardWriteZeroes { sector: u64, num_sectors: u32, flags: u32 },
    /// The disk backend failed to flush.
    Flush,
    /// The descriptor chain has no room for the status byte.
    MissingStatus,
    /// The request touches bytes outside the disk's current size.
    OutOfRange,
    /// The readable part of the chain ended before the message did.
    Read,
    /// The disk backend failed while reading sectors into the chain.
    ReadIo { length: usize, sector: u64 },
    /// A write-class request arrived while the device is read-only.
    ReadOnly { request_type: u32 },
    /// The control tube failed while receiving a command.
    ReceivingCommand,
    /// The control tube failed while sending a response.
    SendingResponse,
    /// The flush timer could not be re-armed or cleared.
    TimerReset,
    /// The request type is not one the device implements.
    Unsupported(u32),
    /// The disk backend failed while writing sectors from the chain.
    WriteIo { length: usize, sector: u64 },
    /// The status byte could not be written back.
    WriteStatus,
}

/// The status byte that reports `e` to the guest.
pub open spec fn spec_status(e: ExecuteError) -> u8 {
    match e {
        ExecuteError::Unsupported(_) => VIRTIO_BLK_S_UNSUPP,
        _ => VIRTIO_BLK_S_IOERR,
    }
}

impl ExecuteError {
    /// Translates a request failure into the status byte written back to the
    /// guest: `UNSUPP` for an unsupported request type, `IOERR` for all
    /// recoverable I/O and validation failures.
    pub fn status(&self) -> (s: u8)
        ensures
            s == spec_status(*self),
    {
        match self {
            ExecuteError::CopyId => VIRTIO_BLK_S_IOERR,
            ExecuteError::DiscardWriteZeroes { .. } => VIRTIO_BLK_S_IOERR,
            ExecuteError::Flush => VIRTIO_BLK_S_IOERR,
            ExecuteError::MissingStatus => VIRTIO_BLK_S_IOERR,
            ExecuteError::OutOfRange => VIRTIO_BLK_S_IOERR,
            ExecuteError::Read => VIRTIO_BLK_S_IOERR,
            ExecuteError::ReadIo { .. } => VIRTIO_BLK_S_IOERR,
            ExecuteError::ReadOnly { .. } => VIRTIO_BLK_S_IOERR,
            ExecuteError::ReceivingCommand => VIRTIO_BLK_S_IOERR,
            ExecuteError::SendingResponse => VIRTIO_BLK_S_IOERR,
            ExecuteError::TimerReset => VIRTIO_BLK_S_IOERR,
            ExecuteError::WriteIo { .. } => VIRTIO_BLK_S_IOERR,
            ExecuteError::WriteStatus => VIRTIO_BLK_S_IOERR,
            ExecuteError::Unsupported(_) => VIRTIO_BLK_S_UNSUPP,
        }
    }
}

/// Errors that happen in the block device outside of executing a request:
/// in the periodic flush task and in the interrupt-resample plumbing.
#[derive(Debug, Clone, Copy, PartialEq, Eq, Structural)]
pub enum ControlError {
    /// An async resample event could not be created.
    AsyncResampleCreate,
    /// The resample event could not be cloned.
    CloneResampleEvent,
    /// The flush timer could not be awaited.
    FlushTimer,
    /// The disk backend failed to fsync.
    FsyncDisk,
    /// The resample event could not be read.
    ReadResampleEvent,
}

} // verus!
