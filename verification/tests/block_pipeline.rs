//! Request-pipeline tests: header parsing, dispatch, status bytes, the
//! used ring, and the concrete guest scenarios.

use vmm_core::block_defs::ExecuteError;
use vmm_core::block_defs::VIRTIO_BLK_S_IOERR;
use vmm_core::block_defs::VIRTIO_BLK_S_OK;
use vmm_core::block_defs::VIRTIO_BLK_S_UNSUPP;
use vmm_core::block_defs::VIRTIO_BLK_T_DISCARD;
use vmm_core::block_defs::VIRTIO_BLK_T_FLUSH;
use vmm_core::block_defs::VIRTIO_BLK_T_GET_ID;
use vmm_core::block_defs::VIRTIO_BLK_T_IN;
use vmm_core::block_defs::VIRTIO_BLK_T_OUT;
use vmm_core::block_defs::VIRTIO_BLK_T_WRITE_ZEROES;
use vmm_core::desc_chain::DescriptorChain;
use vmm_core::desc_chain::Reader;
use vmm_core::desc_chain::Writer;
use vmm_core::disk_model::Disk;
use vmm_core::disk_state::DiskState;
use vmm_core::flush::FlushTimer;
use vmm_core::flush::FLUSH_DELAY_MS;
use vmm_core::pipeline::handle_queue;
use vmm_core::pipeline::process_one_chain;
use vmm_core::pipeline::process_one_request;
use vmm_core::virtqueue::Interrupt;
use vmm_core::virtqueue::Queue;

fn req_header(req_type: u32, sector: u64) -> Vec<u8> {
    let mut h = Vec::new();
    h.extend_from_slice(&req_type.to_le_bytes());
    h.extend_from_slice(&0u32.to_le_bytes());
    h.extend_from_slice(&sector.to_le_bytes());
    h
}

fn dwz_segment(sector: u64, num_sectors: u32, flags: u32) -> Vec<u8> {
    let mut s = Vec::new();
    s.extend_from_slice(&sector.to_le_bytes());
    s.extend_from_slice(&num_sectors.to_le_bytes());
    s.extend_from_slice(&flags.to_le_bytes());
    s
}

fn fresh_state(disk_len: usize, read_only: bool, id: Option<[u8; 20]>) -> DiskState {
    DiskState::new(Disk::zeroed(disk_len), disk_len as u64, read_only, true, id)
}

fn run_request(
    state: &mut DiskState,
    armed: &mut bool,
    timer: &mut FlushTimer,
    reader_data: Vec<u8>,
    writer_cap: u32,
) -> (Result<usize, ExecuteError>, Vec<u8>, Vec<u8>) {
    let mut chain = DescriptorChain::new(0, reader_data, writer_cap);
    let res = process_one_request(&mut chain, state, timer, armed);
    let DescriptorChain { writer, status, .. } = chain;
    (res, writer.into_vec(), status)
}

#[test]
fn read_last_sector() {
    // Disk is 8 sectors long, so sector 7 is the last valid one.
    let mut state = fresh_state(0x1000, false, None);
    let mut armed = false;
    let mut timer = FlushTimer::new();
    let (res, data, status) = run_request(
        &mut state,
        &mut armed,
        &mut timer,
        req_header(VIRTIO_BLK_T_IN, 7),
        512 + 1,
    );
    assert_eq!(res.unwrap(), 513);
    assert_eq!(data.len(), 512);
    assert_eq!(status, vec![VIRTIO_BLK_S_OK]);
}

#[test]
fn read_beyond_last_sector() {
    // Two sectors starting at the last one overlap the end of the disk.
    let mut state = fresh_state(0x1000, false, None);
    let mut armed = false;
    let mut timer = FlushTimer::new();
    let (res, data, status) = run_request(
        &mut state,
        &mut armed,
        &mut timer,
        req_header(VIRTIO_BLK_T_IN, 7),
        512 * 2 + 1,
    );
    assert_eq!(res.unwrap(), 1025);
    assert_eq!(data.len(), 0);
    assert_eq!(status, vec![VIRTIO_BLK_S_IOERR]);
}

#[test]
fn get_id() {
    let id = *b"a20-byteserialnumber";
    let mut state = fresh_state(0x1000, false, Some(id));
    let mut armed = false;
    let mut timer = FlushTimer::new();
    let (res, data, status) = run_request(
        &mut state,
        &mut armed,
        &mut timer,
        req_header(VIRTIO_BLK_T_GET_ID, 0),
        20 + 1,
    );
    assert_eq!(res.unwrap(), 21);
    assert_eq!(data, id.to_vec());
    assert_eq!(status, vec![VIRTIO_BLK_S_OK]);
}

#[test]
fn get_id_unconfigured_is_unsupported() {
    // Without a configured ID the failure is Unsupported(8), never an I/O
    // error.
    let mut state = fresh_state(0x1000, false, None);
    let mut armed = false;
    let mut timer = FlushTimer::new();

    let mut reader = Reader::new(req_header(VIRTIO_BLK_T_GET_ID, 0));
    let mut writer = Writer::new(20);
    let res = vmm_core::block_exec::execute_request(
        &mut reader,
        &mut writer,
        &mut state,
        &mut timer,
        &mut armed,
    );
    assert!(matches!(res, Err(ExecuteError::Unsupported(t)) if t == VIRTIO_BLK_T_GET_ID));

    // Through the pipeline it becomes the UNSUPP status byte.
    let (_, _, status) = run_request(
        &mut state,
        &mut armed,
        &mut timer,
        req_header(VIRTIO_BLK_T_GET_ID, 0),
        21,
    );
    assert_eq!(status, vec![VIRTIO_BLK_S_UNSUPP]);
}

#[test]
fn get_id_without_room_fails_with_copy_id() {
    let id = *b"a20-byteserialnumber";
    let mut state = fresh_state(0x1000, false, Some(id));
    let mut armed = false;
    let mut timer = FlushTimer::new();

    let mut reader = Reader::new(req_header(VIRTIO_BLK_T_GET_ID, 0));
    let mut writer = Writer::new(19);
    let res = vmm_core::block_exec::execute_request(
        &mut reader,
        &mut writer,
        &mut state,
        &mut timer,
        &mut armed,
    );
    assert!(matches!(res, Err(ExecuteError::CopyId)));
}

#[test]
fn read_only_error_names_the_request_type() {
    let mut state = fresh_state(0x1000, true, None);
    let mut armed = false;
    let mut timer = FlushTimer::new();

    let mut reader = Reader::new(req_header(VIRTIO_BLK_T_FLUSH, 0));
    let mut writer = Writer::new(0);
    let res = vmm_core::block_exec::execute_request(
        &mut reader,
        &mut writer,
        &mut state,
        &mut timer,
        &mut armed,
    );
    assert!(
        matches!(res, Err(ExecuteError::ReadOnly { request_type }) if request_type == VIRTIO_BLK_T_FLUSH)
    );
}

#[test]
fn short_header_fails_with_read() {
    let mut state = fresh_state(0x1000, false, None);
    let mut armed = false;
    let mut timer = FlushTimer::new();

    let mut reader = Reader::new(vec![0u8; 15]);
    let mut writer = Writer::new(512);
    let res = vmm_core::block_exec::execute_request(
        &mut reader,
        &mut writer,
        &mut state,
        &mut timer,
        &mut armed,
    );
    assert!(matches!(res, Err(ExecuteError::Read)));
}

#[test]
fn zero_byte_writer_fails_with_missing_status() {
    let mut state = fresh_state(0x1000, false, None);
    let mut armed = false;
    let mut timer = FlushTimer::new();
    let (res, _, status) = run_request(
        &mut state,
        &mut armed,
        &mut timer,
        req_header(VIRTIO_BLK_T_IN, 0),
        0,
    );
    assert!(matches!(res, Err(ExecuteError::MissingStatus)));
    assert!(status.is_empty());
}

#[test]
fn overflowing_sector_fails_with_out_of_range() {
    // A sector whose byte offset would overflow 64 bits is rejected before
    // any I/O attempt, never silently wrapped.
    let mut state = fresh_state(0x1000, false, None);
    let mut armed = false;
    let mut timer = FlushTimer::new();

    let mut reader = Reader::new(req_header(VIRTIO_BLK_T_IN, u64::MAX >> 2));
    let mut writer = Writer::new(512);
    let res = vmm_core::block_exec::execute_request(
        &mut reader,
        &mut writer,
        &mut state,
        &mut timer,
        &mut armed,
    );
    assert!(matches!(res, Err(ExecuteError::OutOfRange)));
}

#[test]
fn out_then_in_roundtrip() {
    // OUT(sector 2, data) then IN(sector 2) over the same length returns
    // the data byte for byte.
    let mut state = fresh_state(0x1000, false, None);
    let mut armed = false;
    let mut timer = FlushTimer::new();

    let payload: Vec<u8> = (0..512u32).map(|i| (i % 251) as u8).collect();
    let mut out_req = req_header(VIRTIO_BLK_T_OUT, 2);
    out_req.extend_from_slice(&payload);
    let (res, _, status) = run_request(&mut state, &mut armed, &mut timer, out_req, 1);
    assert_eq!(res.unwrap(), 1);
    assert_eq!(status, vec![VIRTIO_BLK_S_OK]);

    let (res, data, status) = run_request(
        &mut state,
        &mut armed,
        &mut timer,
        req_header(VIRTIO_BLK_T_IN, 2),
        513,
    );
    assert_eq!(res.unwrap(), 513);
    assert_eq!(status, vec![VIRTIO_BLK_S_OK]);
    assert_eq!(data, payload);
}

#[test]
fn write_zeroes_then_read_is_zero() {
    // Fill two sectors, zero them, and read them back: all zeros.
    let mut state = fresh_state(0x1000, false, None);
    let mut armed = false;
    let mut timer = FlushTimer::new();

    let mut out_req = req_header(VIRTIO_BLK_T_OUT, 3);
    out_req.extend_from_slice(&[0xabu8; 1024]);
    let (res, _, _) = run_request(&mut state, &mut armed, &mut timer, out_req, 1);
    assert_eq!(res.unwrap(), 1);

    let mut wz_req = req_header(VIRTIO_BLK_T_WRITE_ZEROES, 0);
    wz_req.extend_from_slice(&dwz_segment(3, 2, 0));
    let (res, _, status) = run_request(&mut state, &mut armed, &mut timer, wz_req, 1);
    assert_eq!(res.unwrap(), 1);
    assert_eq!(status, vec![VIRTIO_BLK_S_OK]);

    let (res, data, status) = run_request(
        &mut state,
        &mut armed,
        &mut timer,
        req_header(VIRTIO_BLK_T_IN, 3),
        1025,
    );
    assert_eq!(res.unwrap(), 1025);
    assert_eq!(status, vec![VIRTIO_BLK_S_OK]);
    assert_eq!(data, vec![0u8; 1024]);
}

#[test]
fn write_zeroes_rejects_unknown_flags() {
    let mut state = fresh_state(0x1000, false, None);
    let mut armed = false;
    let mut timer = FlushTimer::new();

    let mut wz_req = req_header(VIRTIO_BLK_T_WRITE_ZEROES, 0);
    wz_req.extend_from_slice(&dwz_segment(0, 1, 0x2));
    let mut reader = Reader::new(wz_req);
    let mut writer = Writer::new(0);
    let res = vmm_core::block_exec::execute_request(
        &mut reader,
        &mut writer,
        &mut state,
        &mut timer,
        &mut armed,
    );
    assert!(matches!(
        res,
        Err(ExecuteError::DiscardWriteZeroes { sector: 0, num_sectors: 1, flags: 0x2 })
    ));
}

#[test]
fn discard_on_non_sparse_disk_is_skipped() {
    // Discard is a hint: on a non-sparse disk it succeeds without touching
    // anything.
    let mut state = DiskState::new(Disk::zeroed(0x1000), 0x1000, false, false, None);
    let mut armed = false;
    let mut timer = FlushTimer::new();

    let mut out_req = req_header(VIRTIO_BLK_T_OUT, 0);
    out_req.extend_from_slice(&[0x5au8; 512]);
    run_request(&mut state, &mut armed, &mut timer, out_req, 1).0.unwrap();

    let mut disc_req = req_header(VIRTIO_BLK_T_DISCARD, 0);
    disc_req.extend_from_slice(&dwz_segment(0, 1, 0));
    let (res, _, status) = run_request(&mut state, &mut armed, &mut timer, disc_req, 1);
    assert_eq!(res.unwrap(), 1);
    assert_eq!(status, vec![VIRTIO_BLK_S_OK]);

    let (_, data, _) = run_request(
        &mut state,
        &mut armed,
        &mut timer,
        req_header(VIRTIO_BLK_T_IN, 0),
        513,
    );
    assert_eq!(data, vec![0x5au8; 512]);
}

#[test]
fn read_only_rejects_out_but_not_get_id() {
    let id = *b"a20-byteserialnumber";
    let mut state = fresh_state(0x1000, true, Some(id));
    let mut armed = false;
    let mut timer = FlushTimer::new();

    let mut out_req = req_header(VIRTIO_BLK_T_OUT, 0);
    out_req.extend_from_slice(&[0u8; 512]);
    let (res, _, status) = run_request(&mut state, &mut armed, &mut timer, out_req, 1);
    assert_eq!(res.unwrap(), 1);
    assert_eq!(status, vec![VIRTIO_BLK_S_IOERR]);

    let (_, data, status) = run_request(
        &mut state,
        &mut armed,
        &mut timer,
        req_header(VIRTIO_BLK_T_GET_ID, 0),
        21,
    );
    assert_eq!(data, id.to_vec());
    assert_eq!(status, vec![VIRTIO_BLK_S_OK]);
}

#[test]
fn successful_out_arms_flush_timer_and_flush_clears_it() {
    let mut state = fresh_state(0x1000, false, None);
    let mut armed = false;
    let mut timer = FlushTimer::new();

    let mut out_req = req_header(VIRTIO_BLK_T_OUT, 0);
    out_req.extend_from_slice(&[1u8; 512]);
    run_request(&mut state, &mut armed, &mut timer, out_req, 1).0.unwrap();
    assert!(armed);
    assert!(timer.read_armed());
    assert_eq!(timer.read_delay(), FLUSH_DELAY_MS);

    run_request(
        &mut state,
        &mut armed,
        &mut timer,
        req_header(VIRTIO_BLK_T_FLUSH, 0),
        1,
    )
    .0
    .unwrap();
    assert!(!armed);
    assert!(!timer.read_armed());
}

#[test]
fn unsupported_request_type_status() {
    let mut state = fresh_state(0x1000, false, None);
    let mut armed = false;
    let mut timer = FlushTimer::new();
    let (res, _, status) = run_request(
        &mut state,
        &mut armed,
        &mut timer,
        req_header(3, 0),
        1,
    );
    assert_eq!(res.unwrap(), 1);
    assert_eq!(status, vec![VIRTIO_BLK_S_UNSUPP]);
}

#[test]
fn completed_chain_lands_on_used_ring() {
    // The used ring receives exactly the popped chain, with the writer's
    // original available bytes as the used length.
    let mut state = fresh_state(0x1000, false, None);
    let mut armed = false;
    let mut timer = FlushTimer::new();
    let mut queue = Queue::new(256);
    let mut interrupt = Interrupt::new();

    let chain = DescriptorChain::new(7, req_header(VIRTIO_BLK_T_IN, 0), 513);
    process_one_chain(
        &mut queue,
        chain,
        &mut state,
        &mut interrupt,
        &mut timer,
        &mut armed,
    );
    let used = queue.used_entries();
    assert_eq!(used.len(), 1);
    assert_eq!(used[0].id, 7);
    assert_eq!(used[0].len, 513);
    assert_eq!(used[0].status, vec![VIRTIO_BLK_S_OK]);
    assert!(interrupt.read_signaled());
}

#[test]
fn queue_drain_processes_all_chains_in_order() {
    let mut state = fresh_state(0x1000, false, None);
    let mut armed = false;
    let mut timer = FlushTimer::new();
    let mut queue = Queue::new(256);
    let mut interrupt = Interrupt::new();

    let mut out_req = req_header(VIRTIO_BLK_T_OUT, 1);
    out_req.extend_from_slice(&[9u8; 512]);
    queue.add_avail(DescriptorChain::new(0, out_req, 1));
    queue.add_avail(DescriptorChain::new(1, req_header(VIRTIO_BLK_T_IN, 1), 513));

    handle_queue(&mut queue, &mut state, &mut interrupt, &mut timer, &mut armed);

    let used = queue.used_entries();
    assert_eq!(used.len(), 2);
    assert_eq!(used[0].id, 0);
    assert_eq!(used[0].status, vec![VIRTIO_BLK_S_OK]);
    assert_eq!(used[1].id, 1);
    assert_eq!(used[1].data, vec![9u8; 512]);
    assert!(interrupt.read_signaled());
    assert!(armed);
}
