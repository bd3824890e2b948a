//! Execution of a single virtio-block request.
//!
//! `execute_spec` is the transition function of the request state machine
//! described by the device's wire format: given the readable bytes, the data
//! region's capacity and the device state, it determines the result, the
//! bytes written back, the new disk contents and the new flush-timer state.
//! `execute_request` implements it and is proved against it; the two read
//! locks a request holds are represented by the exclusive borrows it takes.

use vstd::prelude::*;

use crate::block_defs::BlockId;
use crate::block_defs::ExecuteError;
use crate::block_defs::ID_LEN;
use crate::block_defs::MAX_SECTOR;
use crate::block_defs::SECTOR_SHIFT;
use crate::block_defs::VIRTIO_BLK_DISCARD_WRITE_ZEROES_FLAG_UNMAP;
use crate::block_defs::VIRTIO_BLK_T_DISCARD;
use crate::block_defs::VIRTIO_BLK_T_FLUSH;
use crate::block_defs::VIRTIO_BLK_T_GET_ID;
use crate::block_defs::VIRTIO_BLK_T_IN;
use crate::block_defs::VIRTIO_BLK_T_OUT;
use crate::block_defs::VIRTIO_BLK_T_WRITE_ZEROES;
use crate::bytes::u32_from_le;
use crate::bytes::u64_from_le;
use crate::desc_chain::Reader;
use crate::desc_chain::Writer;
use crate::disk_model::store_bytes;
use crate::disk_model::zero_range_spec;
use crate::disk_state::DiskState;
use crate::flush::FlushTimer;
use crate::flush::FLUSH_DELAY_MS;

verus! {

/// The request type held by the first four header bytes.
pub open spec fn hdr_type(req: Seq<u8>) -> u32
    recommends
        req.len() >= 16,
{
    u32_from_le(req.subrange(0, 4))
}

/// The sector number held by the last eight header bytes.
pub open spec fn hdr_sector(req: Seq<u8>) -> u64
    recommends
        req.len() >= 16,
{
    u64_from_le(req.subrange(8, 16))
}

/// Outcome of applying the discard/write-zeroes segments of a request, in
/// order, stopping at the first failure: the result and the disk contents,
/// with every segment before the failure already applied.
pub struct DwzOutcome {
    pub res: Result<(), ExecuteError>,
    pub disk: Seq<u8>,
}

/// Applies the 16-byte `{sector, num_sectors, flags}` segments at the front
/// of `body` to `disk`, as `DISCARD` and `WRITE_ZEROES` do: for each segment
/// the flags are checked (`UNMAP` alone, and only for write-zeroes), the
/// byte range is checked against `disk_size`, and the range is deallocated
/// or zeroed - either way it reads back as zeroes.  Trailing bytes shorter
/// than a segment are ignored.
pub open spec fn dwz_apply(body: Seq<u8>, disk: Seq<u8>, disk_size: u64, wz: bool) -> DwzOutcome
    decreases body.len(),
{
    if body.len() < 16 {
        DwzOutcome { res: Ok(()), disk }
    } else {
        let sector = u64_from_le(body.subrange(0, 8));
        let num_sectors = u32_from_le(body.subrange(8, 12));
        let flags = u32_from_le(body.subrange(12, 16));
        let valid_flags: u32 = if wz {
            VIRTIO_BLK_DISCARD_WRITE_ZEROES_FLAG_UNMAP
        } else {
            0
        };
        if flags & !valid_flags != 0 {
            DwzOutcome {
                res: Err(ExecuteError::DiscardWriteZeroes { sector, num_sectors, flags }),
                disk,
            }
        } else if sector > MAX_SECTOR {
            DwzOutcome { res: Err(ExecuteError::OutOfRange), disk }
        } else {
            let offset = sector << SECTOR_SHIFT;
            let length = (num_sectors as u64) << SECTOR_SHIFT;
            if offset + length > disk_size {
                DwzOutcome { res: Err(ExecuteError::OutOfRange), disk }
            } else {
                dwz_apply(
                    body.skip(16),
                    zero_range_spec(disk, offset as int, length as int),
                    disk_size,
                    wz,
                )
            }
        }
    }
}

/// Outcome of executing one request: the result, the bytes appended to the
/// data writer, the disk contents after, and the flush-timer state after.
pub struct ExecOutcome {
    pub res: Result<(), ExecuteError>,
    pub wrote: Seq<u8>,
    pub disk: Seq<u8>,
    pub timer_armed: bool,
    pub timer_delay: u64,
    pub armed: bool,
}

/// An outcome that leaves the disk, the writer and the flush timer untouched.
pub open spec fn untouched(
    res: Result<(), ExecuteError>,
    disk: Seq<u8>,
    timer_armed: bool,
    timer_delay: u64,
    armed: bool,
) -> ExecOutcome {
    ExecOutcome { res, wrote: Seq::<u8>::empty(), disk, timer_armed, timer_delay, armed }
}

/// The transition function of one block request.
///
/// `req` is the readable part of the chain, `data_cap` the capacity of the
/// (still empty) data writer, `disk` the image contents, `disk_size` the
/// published size, and the rest the device and flush-timer state.  It
/// renders every rule of the dispatch: a short header fails with `Read`;
/// a write-class request on a read-only device fails with `ReadOnly`; `IN`
/// and `OUT` succeed exactly on in-range requests and zero-length ones;
/// a successful `OUT` leaves the armed flag set; `FLUSH` clears it;
/// `GET_ID` requires a configured ID and room for its 20 bytes; discard and
/// write-zeroes apply their segments in order; anything else is
/// `Unsupported`.
pub open spec fn execute_spec(
    req: Seq<u8>,
    data_cap: int,
    disk: Seq<u8>,
    disk_size: u64,
    read_only: bool,
    id: Option<BlockId>,
    sparse: bool,
    timer_armed: bool,
    timer_delay: u64,
    armed: bool,
) -> ExecOutcome {
    if req.len() < 16 {
        untouched(Err(ExecuteError::Read), disk, timer_armed, timer_delay, armed)
    } else {
        let t = hdr_type(req);
        let sector = hdr_sector(req);
        let body = req.skip(16);
        if read_only && t != VIRTIO_BLK_T_IN && t != VIRTIO_BLK_T_GET_ID {
            untouched(
                Err(ExecuteError::ReadOnly { request_type: t }),
                disk,
                timer_armed,
                timer_delay,
                armed,
            )
        } else if t == VIRTIO_BLK_T_IN {
            if data_cap == 0 {
                untouched(Ok(()), disk, timer_armed, timer_delay, armed)
            } else if sector > MAX_SECTOR {
                untouched(Err(ExecuteError::OutOfRange), disk, timer_armed, timer_delay, armed)
            } else if (sector << SECTOR_SHIFT) + data_cap > disk_size {
                untouched(Err(ExecuteError::OutOfRange), disk, timer_armed, timer_delay, armed)
            } else {
                ExecOutcome {
                    res: Ok(()),
                    wrote: disk.subrange(
                        (sector << SECTOR_SHIFT) as int,
                        (sector << SECTOR_SHIFT) + data_cap,
                    ),
                    disk,
                    timer_armed,
                    timer_delay,
                    armed,
                }
            }
        } else if t == VIRTIO_BLK_T_OUT {
            if body.len() == 0 {
                untouched(Ok(()), disk, timer_armed, timer_delay, armed)
            } else if sector > MAX_SECTOR {
                untouched(Err(ExecuteError::OutOfRange), disk, timer_armed, timer_delay, armed)
            } else if (sector << SECTOR_SHIFT) + body.len() > disk_size {
                untouched(Err(ExecuteError::OutOfRange), disk, timer_armed, timer_delay, armed)
            } else {
                ExecOutcome {
                    res: Ok(()),
                    wrote: Seq::<u8>::empty(),
                    disk: store_bytes(disk, (sector << SECTOR_SHIFT) as int, body),
                    timer_armed: if armed {
                        timer_armed
                    } else {
                        true
                    },
                    timer_delay: if armed {
                        timer_delay
                    } else {
                        FLUSH_DELAY_MS
                    },
                    armed: true,
                }
            }
        } else if t == VIRTIO_BLK_T_FLUSH {
            ExecOutcome {
                res: Ok(()),
                wrote: Seq::<u8>::empty(),
                disk,
                timer_armed: if armed {
                    false
                } else {
                    timer_armed
                },
                timer_delay,
                armed: false,
            }
        } else if t == VIRTIO_BLK_T_GET_ID {
            match id {
                Some(idb) => {
                    if ID_LEN <= data_cap {
                        ExecOutcome {
                            res: Ok(()),
                            wrote: idb@,
                            disk,
                            timer_armed,
                            timer_delay,
                            armed,
                        }
                    } else {
                        untouched(
                            Err(ExecuteError::CopyId),
                            disk,
                            timer_armed,
                            timer_delay,
                            armed,
                        )
                    }
                },
                None => untouched(
                    Err(ExecuteError::Unsupported(t)),
                    disk,
                    timer_armed,
                    timer_delay,
                    armed,
                ),
            }
        } else if t == VIRTIO_BLK_T_DISCARD || t == VIRTIO_BLK_T_WRITE_ZEROES {
            if t == VIRTIO_BLK_T_DISCARD && !sparse {
                untouched(Ok(()), disk, timer_armed, timer_delay, armed)
            } else {
                let o = dwz_apply(body, disk, disk_size, t == VIRTIO_BLK_T_WRITE_ZEROES);
                ExecOutcome {
                    res: o.res,
                    wrote: Seq::<u8>::empty(),
                    disk: o.disk,
                    timer_armed,
                    timer_delay,
                    armed,
                }
            }
        } else {
            untouched(Err(ExecuteError::Unsupported(t)), disk, timer_armed, timer_delay, armed)
        }
    }
}

/// Checks that a request touches only bytes within the disk's current size.
/// All parameters are in bytes.
pub fn check_range(io_start: u64, io_length: u64, disk_size: u64) -> (r: Result<(), ExecuteError>)
    ensures
        r == (if io_start + io_length <= disk_size {
            Ok::<(), ExecuteError>(())
        } else {
            Err::<(), ExecuteError>(ExecuteError::OutOfRange)
        }),
{
    match io_start.checked_add(io_length) {
        None => Err(ExecuteError::OutOfRange),
        Some(io_end) => {
            if io_end > disk_size {
                Err(ExecuteError::OutOfRange)
            } else {
                Ok(())
            }
        },
    }
}

/// Executes a single block request against the device state.
///
/// `writer` is the data region only - its status byte has been split off by
/// the caller.  The exclusive borrows on `disk_state` and its shared state
/// play the part of the request path's read locks: no resize can
/// interleave.
/// The result is turned into a status byte by the caller, never propagated.
pub fn execute_request(
    reader: &mut Reader,
    writer: &mut Writer,
    disk_state: &mut DiskState,
    flush_timer: &mut FlushTimer,
    flush_timer_armed: &mut bool,
) -> (res: Result<(), ExecuteError>)
    requires
        old(reader).wf(),
        old(writer).wf(),
        old(writer).contents() == Seq::<u8>::empty(),
        old(disk_state).wf(),
    ensures
        final(reader).wf(),
        final(writer).wf(),
        final(disk_state).wf(),
        final(writer).capacity() == old(writer).capacity(),
        final(disk_state).read_only == old(disk_state).read_only,
        final(disk_state).id == old(disk_state).id,
        final(disk_state).worker_shared_state == old(disk_state).worker_shared_state,
        ({
            let out = execute_spec(
                old(reader).remaining(),
                old(writer).capacity(),
                old(disk_state).contents(),
                old(disk_state).size(),
                old(disk_state).read_only,
                old(disk_state).id,
                old(disk_state).worker_shared_state.sparse,
                old(flush_timer).is_armed(),
                old(flush_timer).delay(),
                *old(flush_timer_armed),
            );
            &&& res == out.res
            &&& final(writer).contents() == out.wrote
            &&& final(disk_state).contents() == out.disk
            &&& final(flush_timer).is_armed() == out.timer_armed
            &&& final(flush_timer).delay() == out.timer_delay
            &&& *final(flush_timer_armed) == out.armed
        }),
{
    let ghost req = reader.remaining();
    if reader.available_bytes() < 16 {
        return Err(ExecuteError::Read);
    }
    let req_type = reader.read_u32_le();
    let _reserved: u32 = reader.read_u32_le();
    let sector = reader.read_u64_le();
    proof {
        assert(req.skip(4).subrange(0, 4) =~= req.subrange(4, 8));
        assert(req.skip(4).skip(4).subrange(0, 8) =~= req.subrange(8, 16));
        assert(req.skip(4).skip(4).skip(8) =~= req.skip(16));
        assert(req_type == hdr_type(req));
        assert(sector == hdr_sector(req));
        assert(reader.remaining() == req.skip(16));
    }
    let ghost body = req.skip(16);

    if disk_state.read_only && req_type != VIRTIO_BLK_T_IN && req_type != VIRTIO_BLK_T_GET_ID {
        return Err(ExecuteError::ReadOnly { request_type: req_type });
    }

    let disk_size = disk_state.worker_shared_state.disk_size;

    if req_type == VIRTIO_BLK_T_IN {
        let data_len = writer.available_bytes();
        if data_len == 0 {
            return Ok(());
        }
        if sector > MAX_SECTOR {
            return Err(ExecuteError::OutOfRange);
        }
        let offset: u64 = sector << SECTOR_SHIFT;
        if let Err(e) = check_range(offset, data_len as u64, disk_size) {
            return Err(e);
        }
        let buf = disk_state.disk_image.read_at(offset, data_len);
        let ok = writer.write_all(&buf);
        assert(ok);
        Ok(())
    } else if req_type == VIRTIO_BLK_T_OUT {
        let data_len = reader.available_bytes();
        if data_len == 0 {
            return Ok(());
        }
        if sector > MAX_SECTOR {
            return Err(ExecuteError::OutOfRange);
        }
        let offset: u64 = sector << SECTOR_SHIFT;
        if let Err(e) = check_range(offset, data_len as u64, disk_size) {
            return Err(e);
        }
        let buf = reader.read_bytes(data_len);
        proof {
            assert(buf@ =~= body);
        }
        disk_state.disk_image.write_at(offset, &buf);
        if !*flush_timer_armed {
            *flush_timer_armed = true;
            flush_timer.reset(FLUSH_DELAY_MS);
        }
        Ok(())
    } else if req_type == VIRTIO_BLK_T_DISCARD || req_type == VIRTIO_BLK_T_WRITE_ZEROES {
        if req_type == VIRTIO_BLK_T_DISCARD && !disk_state.worker_shared_state.sparse {
            // Discard is a hint; on a non-sparse disk it is silently skipped.
            return Ok(());
        }
        let wz = req_type == VIRTIO_BLK_T_WRITE_ZEROES;
        let valid_flags: u32 = if wz {
            VIRTIO_BLK_DISCARD_WRITE_ZEROES_FLAG_UNMAP
        } else {
            0
        };
        let ghost disk0 = disk_state.contents();
        while reader.available_bytes() >= 16
            invariant
                reader.wf(),
                disk_state.wf(),
                writer.wf(),
                writer.contents() == Seq::<u8>::empty(),
                writer.capacity() == old(writer).capacity(),
                *flush_timer == *old(flush_timer),
                *flush_timer_armed == *old(flush_timer_armed),
                req == old(reader).remaining(),
                req.len() >= 16,
                req_type == hdr_type(req),
                body == req.skip(16),
                disk0 == old(disk_state).contents(),
                req_type == VIRTIO_BLK_T_DISCARD || req_type == VIRTIO_BLK_T_WRITE_ZEROES,
                !(old(disk_state).read_only && req_type != VIRTIO_BLK_T_IN && req_type
                    != VIRTIO_BLK_T_GET_ID),
                req_type == VIRTIO_BLK_T_DISCARD ==> old(
                    disk_state,
                ).worker_shared_state.sparse,
                disk_state.read_only == old(disk_state).read_only,
                disk_state.id == old(disk_state).id,
                disk_state.worker_shared_state == old(disk_state).worker_shared_state,
                disk_size == disk_state.size(),
                wz == (req_type == VIRTIO_BLK_T_WRITE_ZEROES),
                valid_flags == (if wz {
                    VIRTIO_BLK_DISCARD_WRITE_ZEROES_FLAG_UNMAP
                } else {
                    0u32
                }),
                dwz_apply(body, disk0, disk_size, wz) == dwz_apply(
                    reader.remaining(),
                    disk_state.contents(),
                    disk_size,
                    wz,
                ),
            decreases reader.remaining().len(),
        {
            let ghost rem0 = reader.remaining();
            let ghost dcur = disk_state.contents();
            let seg_sector = reader.read_u64_le();
            let num_sectors = reader.read_u32_le();
            let flags = reader.read_u32_le();
            proof {
                assert(rem0.skip(8).subrange(0, 4) =~= rem0.subrange(8, 12));
                assert(rem0.skip(8).skip(4).subrange(0, 4) =~= rem0.subrange(12, 16));
                assert(rem0.skip(8).skip(4).skip(4) =~= rem0.skip(16));
                assert(seg_sector == u64_from_le(rem0.subrange(0, 8)));
                assert(num_sectors == u32_from_le(rem0.subrange(8, 12)));
                assert(flags == u32_from_le(rem0.subrange(12, 16)));
                assert(reader.remaining() == rem0.skip(16));
            }
            if flags & !valid_flags != 0 {
                proof {
                    assert(dwz_apply(rem0, dcur, disk_size, wz) == DwzOutcome {
                        res: Err(
                            ExecuteError::DiscardWriteZeroes {
                                sector: seg_sector,
                                num_sectors,
                                flags,
                            },
                        ),
                        disk: dcur,
                    });
                }
                return Err(
                    ExecuteError::DiscardWriteZeroes { sector: seg_sector, num_sectors, flags },
                );
            }
            if seg_sector > MAX_SECTOR {
                proof {
                    assert(dwz_apply(rem0, dcur, disk_size, wz) == DwzOutcome {
                        res: Err(ExecuteError::OutOfRange),
                        disk: dcur,
                    });
                }
                return Err(ExecuteError::OutOfRange);
            }
            let offset: u64 = seg_sector << SECTOR_SHIFT;
            let length: u64 = (num_sectors as u64) << SECTOR_SHIFT;
            if let Err(e) = check_range(offset, length, disk_size) {
                proof {
                    assert(dwz_apply(rem0, dcur, disk_size, wz) == DwzOutcome {
                        res: Err(ExecuteError::OutOfRange),
                        disk: dcur,
                    });
                }
                return Err(e);
            }
            if req_type == VIRTIO_BLK_T_DISCARD {
                // Some filesystems do not support hole punching; its errors
                // are ignored, so only the successful effect is modelled.
                disk_state.disk_image.punch_hole(offset, length);
            } else {
                disk_state.disk_image.write_zeroes_at(offset, length);
            }
            proof {
                assert(disk_state.contents() == zero_range_spec(
                    dcur,
                    offset as int,
                    length as int,
                ));
                assert(disk_state.contents().len() == dcur.len());
                assert(dwz_apply(rem0, dcur, disk_size, wz) == dwz_apply(
                    reader.remaining(),
                    disk_state.contents(),
                    disk_size,
                    wz,
                ));
            }
        }
        proof {
            assert(dwz_apply(reader.remaining(), disk_state.contents(), disk_size, wz)
                == DwzOutcome { res: Ok(()), disk: disk_state.contents() });
        }
        Ok(())
    } else if req_type == VIRTIO_BLK_T_FLUSH {
        disk_state.disk_image.fsync();
        if *flush_timer_armed {
            flush_timer.clear();
            *flush_timer_armed = false;
        }
        Ok(())
    } else if req_type == VIRTIO_BLK_T_GET_ID {
        match disk_state.id {
            Some(id) => {
                let mut idv: Vec<u8> = Vec::new();
                let mut i: usize = 0;
                while i < ID_LEN
                    invariant
                        i <= ID_LEN,
                        id@.len() == ID_LEN,
                        idv@ =~= id@.subrange(0, i as int),
                    decreases ID_LEN - i,
                {
                    idv.push(id[i]);
                    proof {
                        assert(idv@ =~= id@.subrange(0, i + 1));
                    }
                    i = i + 1;
                }
                proof {
                    assert(idv@ =~= id@);
                }
                let ok = writer.write_all(&idv);
                if ok {
                    Ok(())
                } else {
                    Err(ExecuteError::CopyId)
                }
            },
            None => Err(ExecuteError::Unsupported(req_type)),
        }
    } else {
        Err(ExecuteError::Unsupported(req_type))
    }
}

} // verus!
