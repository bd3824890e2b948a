//! Laws of the request state machine, stated over the same spec functions
//! the executable contracts use.

use vstd::prelude::*;

use crate::block_defs::BlockId;
use crate::block_defs::spec_status;
use crate::block_defs::ExecuteError;
use crate::block_defs::MAX_SECTOR;
use crate::block_defs::VIRTIO_BLK_S_IOERR;
use crate::block_defs::SECTOR_SHIFT;
use crate::block_defs::VIRTIO_BLK_T_FLUSH;
use crate::block_defs::VIRTIO_BLK_T_IN;
use crate::block_defs::VIRTIO_BLK_T_OUT;
use crate::block_defs::VIRTIO_BLK_T_WRITE_ZEROES;
use crate::bytes::lemma_u32_le_roundtrip;
use crate::bytes::lemma_u64_le_roundtrip;
use crate::bytes::u32_le_bytes;
use crate::bytes::u64_le_bytes;
use crate::block_exec::dwz_apply;
use crate::block_exec::DwzOutcome;
use crate::block_exec::execute_spec;
use crate::block_exec::hdr_sector;
use crate::block_exec::hdr_type;
use crate::control::DiskControlResult;
use crate::control::resize_post;
use crate::disk_model::lemma_store_then_read;
use crate::disk_model::lemma_zero_then_read;
use crate::disk_model::store_bytes;
use crate::disk_model::zero_range_spec;
use crate::disk_model::zero_seq;
use crate::disk_state::DiskState;

verus! {

/// The 16 header bytes of a request: type, reserved, sector, little-endian.
pub open spec fn req_header_bytes(req_type: u32, sector: u64) -> Seq<u8> {
    u32_le_bytes(req_type) + u32_le_bytes(0) + u64_le_bytes(sector)
}

/// The readable bytes of an `OUT` request carrying `data`.
pub open spec fn out_request(sector: u64, data: Seq<u8>) -> Seq<u8> {
    req_header_bytes(VIRTIO_BLK_T_OUT, sector) + data
}

/// The readable bytes of an `IN` request.
pub open spec fn in_request(sector: u64) -> Seq<u8> {
    req_header_bytes(VIRTIO_BLK_T_IN, sector)
}

/// One discard/write-zeroes segment: sector, sector count, flags.
pub open spec fn dwz_segment_bytes(sector: u64, num_sectors: u32, flags: u32) -> Seq<u8> {
    u64_le_bytes(sector) + u32_le_bytes(num_sectors) + u32_le_bytes(flags)
}

/// The readable bytes of a `WRITE_ZEROES` request with one segment and no
/// flags.
pub open spec fn write_zeroes_request(sector: u64, num_sectors: u32) -> Seq<u8> {
    req_header_bytes(VIRTIO_BLK_T_WRITE_ZEROES, 0) + dwz_segment_bytes(sector, num_sectors, 0)
}

/// A request built from a header and a body parses back into its parts.
pub proof fn lemma_header_fields(req_type: u32, sector: u64, body: Seq<u8>)
    ensures
        ({
            let req = req_header_bytes(req_type, sector) + body;
            &&& req.len() == 16 + body.len()
            &&& hdr_type(req) == req_type
            &&& hdr_sector(req) == sector
            &&& req.skip(16) == body
        }),
{
    let req = req_header_bytes(req_type, sector) + body;
    assert(req.subrange(0, 4) =~= u32_le_bytes(req_type));
    assert(req.subrange(8, 16) =~= u64_le_bytes(sector));
    assert(req.skip(16) =~= body);
    lemma_u32_le_roundtrip(req_type);
    lemma_u64_le_roundtrip(sector);
}

/// An `OUT` or `IN` request whose range reaches past the published disk
/// size fails with `OutOfRange` - reported to the guest as `IOERR` - and
/// the disk is neither read nor written.  A sector whose byte offset would
/// overflow 64 bits fails the same way, before any I/O attempt.
pub proof fn lemma_out_of_range_rejected(
    req: Seq<u8>,
    data_cap: int,
    disk: Seq<u8>,
    disk_size: u64,
    read_only: bool,
    id: Option<BlockId>,
    sparse: bool,
    timer_armed: bool,
    timer_delay: u64,
    armed: bool,
)
    requires
        req.len() >= 16,
        hdr_type(req) == VIRTIO_BLK_T_IN || hdr_type(req) == VIRTIO_BLK_T_OUT,
        !(read_only && hdr_type(req) == VIRTIO_BLK_T_OUT),
        hdr_type(req) == VIRTIO_BLK_T_IN ==> data_cap > 0,
        hdr_type(req) == VIRTIO_BLK_T_OUT ==> req.skip(16).len() > 0,
        hdr_sector(req) > MAX_SECTOR || (hdr_sector(req) << SECTOR_SHIFT) + (if hdr_type(req)
            == VIRTIO_BLK_T_IN {
            data_cap
        } else {
            req.skip(16).len() as int
        }) > disk_size,
    ensures
        ({
            let out = execute_spec(
                req,
                data_cap,
                disk,
                disk_size,
                read_only,
                id,
                sparse,
                timer_armed,
                timer_delay,
                armed,
            );
            &&& out.res == Err::<(), ExecuteError>(ExecuteError::OutOfRange)
            &&& spec_status(ExecuteError::OutOfRange) == VIRTIO_BLK_S_IOERR
            &&& out.disk == disk
            &&& out.wrote == Seq::<u8>::empty()
            &&& out.armed == armed
        }),
{
}

/// A successful `OUT` that carried data leaves the flush-armed flag set;
/// and once set, only a `FLUSH` ever clears it.
pub proof fn lemma_flush_arming(
    req: Seq<u8>,
    data_cap: int,
    disk: Seq<u8>,
    disk_size: u64,
    read_only: bool,
    id: Option<BlockId>,
    sparse: bool,
    timer_armed: bool,
    timer_delay: u64,
    armed: bool,
)
    ensures
        ({
            let out = execute_spec(
                req,
                data_cap,
                disk,
                disk_size,
                read_only,
                id,
                sparse,
                timer_armed,
                timer_delay,
                armed,
            );
            &&& (req.len() >= 16 && hdr_type(req) == VIRTIO_BLK_T_OUT && req.skip(16).len() > 0
                && out.res is Ok ==> out.armed)
            &&& (armed && !out.armed ==> req.len() >= 16 && hdr_type(req) == VIRTIO_BLK_T_FLUSH)
        }),
{
}

/// `OUT(sector, data)` followed by `IN(sector)` over `data.len()` bytes
/// returns `data` byte for byte, with no intervening writer.
pub proof fn lemma_out_then_in_roundtrip(
    disk: Seq<u8>,
    disk_size: u64,
    sector: u64,
    data: Seq<u8>,
    id: Option<BlockId>,
    sparse: bool,
    timer_armed: bool,
    timer_delay: u64,
    armed: bool,
    timer_armed2: bool,
    timer_delay2: u64,
    armed2: bool,
)
    requires
        disk.len() == disk_size,
        sector <= MAX_SECTOR,
        0 < data.len(),
        (sector << SECTOR_SHIFT) + data.len() <= disk_size,
    ensures
        ({
            let o1 = execute_spec(
                out_request(sector, data),
                0,
                disk,
                disk_size,
                false,
                id,
                sparse,
                timer_armed,
                timer_delay,
                armed,
            );
            let o2 = execute_spec(
                in_request(sector),
                data.len() as int,
                o1.disk,
                disk_size,
                false,
                id,
                sparse,
                timer_armed2,
                timer_delay2,
                armed2,
            );
            &&& o1.res is Ok
            &&& o2.res is Ok
            &&& o2.wrote == data
        }),
{
    lemma_header_fields(VIRTIO_BLK_T_OUT, sector, data);
    lemma_header_fields(VIRTIO_BLK_T_IN, sector, Seq::<u8>::empty());
    assert(in_request(sector) =~= req_header_bytes(VIRTIO_BLK_T_IN, sector)
        + Seq::<u8>::empty());
    let off = (sector << SECTOR_SHIFT) as int;
    let o1 = execute_spec(
        out_request(sector, data),
        0,
        disk,
        disk_size,
        false,
        id,
        sparse,
        timer_armed,
        timer_delay,
        armed,
    );
    assert(o1.disk == store_bytes(disk, off, data));
    lemma_store_then_read(disk, off, data);
    assert(o1.disk.subrange(off, off + data.len()) == data);
}

/// `WRITE_ZEROES` over a range followed by `IN` over the same range returns
/// all zeros.
pub proof fn lemma_write_zeroes_then_read(
    disk: Seq<u8>,
    disk_size: u64,
    sector: u64,
    num_sectors: u32,
    id: Option<BlockId>,
    sparse: bool,
    timer_armed: bool,
    timer_delay: u64,
    armed: bool,
    timer_armed2: bool,
    timer_delay2: u64,
    armed2: bool,
)
    requires
        disk.len() == disk_size,
        sector <= MAX_SECTOR,
        (sector << SECTOR_SHIFT) + ((num_sectors as u64) << SECTOR_SHIFT) <= disk_size,
    ensures
        ({
            let len = (num_sectors as u64) << SECTOR_SHIFT;
            let o1 = execute_spec(
                write_zeroes_request(sector, num_sectors),
                0,
                disk,
                disk_size,
                false,
                id,
                sparse,
                timer_armed,
                timer_delay,
                armed,
            );
            let o2 = execute_spec(
                in_request(sector),
                len as int,
                o1.disk,
                disk_size,
                false,
                id,
                sparse,
                timer_armed2,
                timer_delay2,
                armed2,
            );
            &&& o1.res is Ok
            &&& o2.res is Ok
            &&& o2.wrote == zero_seq(len as int)
        }),
{
    let seg = dwz_segment_bytes(sector, num_sectors, 0);
    lemma_header_fields(VIRTIO_BLK_T_WRITE_ZEROES, 0, seg);
    lemma_header_fields(VIRTIO_BLK_T_IN, sector, Seq::<u8>::empty());
    assert(in_request(sector) =~= req_header_bytes(VIRTIO_BLK_T_IN, sector)
        + Seq::<u8>::empty());
    assert(seg.subrange(0, 8) =~= u64_le_bytes(sector));
    assert(seg.subrange(8, 12) =~= u32_le_bytes(num_sectors));
    assert(seg.subrange(12, 16) =~= u32_le_bytes(0));
    lemma_u64_le_roundtrip(sector);
    lemma_u32_le_roundtrip(num_sectors);
    lemma_u32_le_roundtrip(0);
    assert(0u32 & !1u32 == 0) by (bit_vector);
    assert(seg.skip(16) =~= Seq::<u8>::empty());
    let len = (num_sectors as u64) << SECTOR_SHIFT;
    let off = (sector << SECTOR_SHIFT) as int;
    let o1 = execute_spec(
        write_zeroes_request(sector, num_sectors),
        0,
        disk,
        disk_size,
        false,
        id,
        sparse,
        timer_armed,
        timer_delay,
        armed,
    );
    let dz = zero_range_spec(disk, off, len as int);
    assert(dwz_apply(Seq::<u8>::empty(), dz, disk_size, true) == DwzOutcome {
        res: Ok(()),
        disk: dz,
    });
    assert(dwz_apply(seg, disk, disk_size, true) == DwzOutcome { res: Ok(()), disk: dz });
    assert(o1.disk == zero_range_spec(disk, off, len as int));
    lemma_zero_then_read(disk, off, len as int);
    if len == 0 {
        assert(o1.disk.subrange(off, off + len) =~= zero_seq(len as int));
    }
}

/// The published disk size decreases only when a resize to a smaller size
/// succeeded; failed resizes and request execution leave it untouched.
pub proof fn lemma_size_decrease_needs_resize(
    pre: DiskState,
    new_size: u64,
    r: DiskControlResult,
    post: DiskState,
)
    requires
        resize_post(pre, new_size, r, post),
        post.size() < pre.size(),
    ensures
        r is Ok,
        new_size < pre.size(),
{
}

/// One step of the device as far as the published size is concerned:
/// request execution and flush expiries leave it alone (`execute_request`
/// and `flush_disk` ensure as much), and a successful resize publishes the
/// new size (`resize` ensures it); failed resizes leave it untouched and
/// are `Request` steps here.
pub enum SizeStep {
    /// Any step that leaves the published size unchanged.
    Request,
    /// A successful resize to the given size.
    ResizeTo(u64),
}

/// The published size after a run of steps from size `sz0`.
pub open spec fn size_after_steps(sz0: u64, steps: Seq<SizeStep>) -> u64
    decreases steps.len(),
{
    if steps.len() == 0 {
        sz0
    } else {
        let sz1 = match steps[0] {
            SizeStep::Request => sz0,
            SizeStep::ResizeTo(n) => n,
        };
        size_after_steps(sz1, steps.skip(1))
    }
}

/// The size observed in config-space reads never decreases over a run
/// unless a successful resize to a smaller size completed first: whenever
/// the size after a run is below the size before it, some step of the run
/// was a resize below the size current at its moment.
pub proof fn lemma_size_decrease_requires_shrinking_resize(sz0: u64, steps: Seq<SizeStep>)
    requires
        size_after_steps(sz0, steps) < sz0,
    ensures
        exists|i: int|
            0 <= i < steps.len() && #[trigger] steps[i] is ResizeTo && steps[i]->ResizeTo_0
                < size_after_steps(sz0, steps.take(i)),
    decreases steps.len(),
{
    let sz1 = match steps[0] {
        SizeStep::Request => sz0,
        SizeStep::ResizeTo(n) => n,
    };
    if steps[0] is ResizeTo && sz1 < sz0 {
        assert(steps.take(0) =~= Seq::<SizeStep>::empty());
        assert(steps[0] is ResizeTo && steps[0]->ResizeTo_0 < size_after_steps(
            sz0,
            steps.take(0),
        ));
    } else {
        // The first step did not shrink the size, so the rest of the run
        // fell below its own starting size.
        lemma_size_decrease_requires_shrinking_resize(sz1, steps.skip(1));
        let j = choose|j: int|
            0 <= j < steps.skip(1).len() && #[trigger] steps.skip(1)[j] is ResizeTo && steps.skip(
                1,
            )[j]->ResizeTo_0 < size_after_steps(sz1, steps.skip(1).take(j));
        assert(steps.skip(1).take(j) =~= steps.take(j + 1).skip(1));
        assert(size_after_steps(sz0, steps.take(j + 1)) == size_after_steps(
            sz1,
            steps.take(j + 1).skip(1),
        ));
        assert(steps[j + 1] is ResizeTo && steps[j + 1]->ResizeTo_0 < size_after_steps(
            sz0,
            steps.take(j + 1),
        ));
    }
}

/// The capacity the guest reads in the config space is monotonic in the
/// published size: a size that did not shrink never shows a smaller
/// capacity.
pub proof fn lemma_capacity_monotonic(sz1: u64, sz2: u64)
    requires
        sz1 <= sz2,
    ensures
        sz1 >> SECTOR_SHIFT <= sz2 >> SECTOR_SHIFT,
{
    assert(sz1 >> 9 <= sz2 >> 9) by (bit_vector)
        requires
            sz1 <= sz2,
    ;
}

} // verus!
