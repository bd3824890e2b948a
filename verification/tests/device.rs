//! Device-level tests: construction, feature bits, config space, worker
//! lifecycle, resize, and the flush timer.

use vmm_core::block_defs::DEFAULT_NUM_QUEUES;
use vmm_core::block_defs::DEFAULT_QUEUE_SIZE;
use vmm_core::block_defs::VIRTIO_BLK_F_MQ;
use vmm_core::block_device::BlockAsync;
use vmm_core::block_device::Tube;
use vmm_core::block_device::EINVAL;
use vmm_core::control::DiskControlCommand;
use vmm_core::disk_model::Disk;
use vmm_core::flush::flush_disk;
use vmm_core::flush::timer_read_outcome;
use vmm_core::flush::FlushTimer;
use vmm_core::flush::ENODATA;
use vmm_core::disk_state::DiskState;
use vmm_core::virtqueue::Event;
use vmm_core::virtqueue::Interrupt;
use vmm_core::virtqueue::Queue;

/// The base features of an unprotected VM: VIRTIO_F_VERSION_1 and
/// VIRTIO_RING_F_EVENT_IDX.
const BASE_FEATURES: u64 = 0x1_2000_0000;

fn two_queues() -> Vec<(Queue, Event)> {
    vec![
        (Queue::new(DEFAULT_QUEUE_SIZE), Event::new()),
        (Queue::new(DEFAULT_QUEUE_SIZE), Event::new()),
    ]
}

#[test]
fn timer() {
    // One-shot flush timer: arming records the delay, firing disarms.
    let mut t = FlushTimer::new();
    assert!(!t.read_armed());
    t.reset(200);
    assert!(t.read_armed());
    assert_eq!(t.read_delay(), 200);
    t.fire();
    assert!(!t.read_armed());

    // A timer descriptor read yields one 8-byte expiration count.
    assert_eq!(timer_read_outcome(8), Ok(()));
    assert_eq!(timer_read_outcome(0), Err(ENODATA));
}

#[test]
fn flush_disk_clears_armed_flag_before_sync() {
    let state = DiskState::new(Disk::zeroed(0x1000), 0x1000, false, true, None);
    let mut armed = true;
    assert!(flush_disk(&state, &mut armed));
    assert!(!armed);
    // A second expiry with nothing written in between syncs nothing.
    assert!(!flush_disk(&state, &mut armed));
    assert!(!armed);
}

#[test]
fn read_size() {
    let b = BlockAsync::new(
        BASE_FEATURES,
        Disk::zeroed(0x1000),
        true,
        false,
        512,
        false,
        None,
        None,
        None,
        None,
    )
    .unwrap();
    let mut num_sectors = vec![0u8; 4];
    b.read_config(0, &mut num_sectors);
    // size is 0x1000, so num_sectors is 8 (4096/512).
    assert_eq!(vec![0x08, 0x00, 0x00, 0x00], num_sectors);
    let mut msw_sectors = vec![0u8; 4];
    b.read_config(4, &mut msw_sectors);
    // size is 0x1000, so msw_sectors is 0.
    assert_eq!(vec![0x00, 0x00, 0x00, 0x00], msw_sectors);
}

#[test]
fn read_block_size() {
    let b = BlockAsync::new(
        BASE_FEATURES,
        Disk::zeroed(0x1000),
        true,
        false,
        4096,
        false,
        None,
        None,
        None,
        None,
    )
    .unwrap();
    let mut blk_size = vec![0u8; 4];
    b.read_config(20, &mut blk_size);
    // blk_size should be 4096 (0x1000).
    assert_eq!(vec![0x00, 0x10, 0x00, 0x00], blk_size);
}

#[test]
fn read_features() {
    // read-write block device
    {
        let b = BlockAsync::new(
            BASE_FEATURES,
            Disk::zeroed(0x1000),
            false,
            true,
            512,
            false,
            None,
            None,
            None,
            None,
        )
        .unwrap();
        // writable device should set VIRTIO_BLK_F_FLUSH + VIRTIO_BLK_F_DISCARD
        // + VIRTIO_BLK_F_WRITE_ZEROES + VIRTIO_F_VERSION_1 + VIRTIO_BLK_F_BLK_SIZE
        // + VIRTIO_BLK_F_SEG_MAX + VIRTIO_BLK_F_MQ + VIRTIO_RING_F_EVENT_IDX
        assert_eq!(0x120007244, b.features());
    }

    // read-write block device, non-sparse
    {
        let b = BlockAsync::new(
            BASE_FEATURES,
            Disk::zeroed(0x1000),
            false,
            false,
            512,
            false,
            None,
            None,
            None,
            None,
        )
        .unwrap();
        // writable device should set VIRTIO_F_FLUSH + VIRTIO_BLK_F_RO
        // + VIRTIO_F_VERSION_1 + VIRTIO_BLK_F_BLK_SIZE + VIRTIO_BLK_F_SEG_MAX
        // + VIRTIO_BLK_F_MQ + VIRTIO_RING_F_EVENT_IDX
        assert_eq!(0x120005244, b.features());
    }

    // read-only block device
    {
        let b = BlockAsync::new(
            BASE_FEATURES,
            Disk::zeroed(0x1000),
            true,
            true,
            512,
            false,
            None,
            None,
            None,
            None,
        )
        .unwrap();
        // read-only device should set VIRTIO_BLK_F_RO
        // + VIRTIO_F_VERSION_1 + VIRTIO_BLK_F_BLK_SIZE + VIRTIO_BLK_F_SEG_MAX
        // + VIRTIO_BLK_F_MQ + VIRTIO_RING_F_EVENT_IDX
        assert_eq!(0x120001064, b.features());
    }
}

#[test]
fn check_runtime_blk_queue_configurability() {
    // Default case
    let b = BlockAsync::new(
        BASE_FEATURES,
        Disk::zeroed(0x1000),
        false,
        true,
        512,
        false,
        None,
        None,
        None,
        None,
    )
    .unwrap();
    assert_eq!(
        &vec![DEFAULT_QUEUE_SIZE; DEFAULT_NUM_QUEUES as usize],
        b.queue_max_sizes()
    );

    // Single queue of size 128
    let b = BlockAsync::new(
        BASE_FEATURES,
        Disk::zeroed(0x1000),
        false,
        false,
        512,
        false,
        None,
        None,
        Some(128),
        Some(1),
    )
    .unwrap();
    assert_eq!(&vec![128u16; 1], b.queue_max_sizes());
    // Single queue device should not set VIRTIO_BLK_F_MQ
    assert_eq!(0, b.features() & (1 << VIRTIO_BLK_F_MQ) as u64);
}

#[test]
fn invalid_construction_parameters() {
    // A block size off the sector grid is rejected.
    assert_eq!(
        BlockAsync::new(
            BASE_FEATURES,
            Disk::zeroed(0x1000),
            false,
            true,
            500,
            false,
            None,
            None,
            None,
            None,
        )
        .err()
        .unwrap(),
        EINVAL
    );
    // A queue size that is not a power of two is rejected.
    assert_eq!(
        BlockAsync::new(
            BASE_FEATURES,
            Disk::zeroed(0x1000),
            false,
            true,
            512,
            false,
            None,
            None,
            Some(129),
            None,
        )
        .err()
        .unwrap(),
        EINVAL
    );
    // A device without queues is rejected.
    assert_eq!(
        BlockAsync::new(
            BASE_FEATURES,
            Disk::zeroed(0x1000),
            false,
            true,
            512,
            false,
            None,
            None,
            None,
            Some(0),
        )
        .err()
        .unwrap(),
        EINVAL
    );
}

fn reset_and_reactivate(enables_multiple_workers: bool) {
    let mut b = BlockAsync::new(
        BASE_FEATURES,
        Disk::zeroed(0x1000),
        true,
        false,
        512,
        enables_multiple_workers,
        None,
        Some(Tube::new()),
        None,
        None,
    )
    .unwrap();

    // activate with queues of an arbitrary size.
    b.activate(Interrupt::new(), two_queues()).expect("activate should succeed");
    // assert resources are consumed
    assert!(b.disk_image.is_none(), "BlockAsync should not have a disk image");
    assert!(b.control_tube.is_none(), "BlockAsync should not have a control tube");

    // reset and assert resources are got back
    assert!(b.reset(), "reset should succeed");
    assert!(b.disk_image.is_some(), "BlockAsync should have a disk image");
    assert!(b.control_tube.is_some(), "BlockAsync should have a control tube");

    // re-activate should succeed
    b.activate(Interrupt::new(), two_queues()).expect("re-activate should succeed");
}

#[test]
fn reset_and_reactivate_single_worker() {
    reset_and_reactivate(false);
}

#[test]
fn reset_and_reactivate_multiple_workers() {
    reset_and_reactivate(true);
}

fn resize(enables_multiple_workers: bool) {
    // disk image size constants
    let original_size = 0x1000;
    let resized_size = 0x2000;

    let mut b = BlockAsync::new(
        BASE_FEATURES,
        Disk::zeroed(original_size),
        false,
        false,
        512,
        enables_multiple_workers,
        None,
        Some(Tube::new()),
        None,
        None,
    )
    .unwrap();

    // activate with queues of an arbitrary size.
    b.activate(Interrupt::new(), two_queues()).expect("activate should succeed");

    // assert the original size first
    assert_eq!(
        b.disk_size, original_size as u64,
        "disk_size should be the original size first"
    );
    let mut capacity = vec![0u8; 8];
    b.read_config(0, &mut capacity);
    assert_eq!(
        capacity,
        // original_size (0x1000) >> SECTOR_SHIFT (9) = 0x8
        vec![0x8, 0x00, 0x00, 0x00, 0x00, 0x00, 0x00, 0x00],
        "read_config should read the original capacity first"
    );

    // assert resize works
    let resp = b.handle_control(DiskControlCommand::Resize {
        new_size: resized_size,
    });
    assert_eq!(resp, Ok(()), "resize command should succeed");
    assert_eq!(
        b.disk_size, resized_size,
        "disk_size should be resized to the new size"
    );
    let mut capacity = vec![0u8; 8];
    b.read_config(0, &mut capacity);
    assert_eq!(
        capacity,
        // resized_size (0x2000) >> SECTOR_SHIFT (9) = 0x10
        vec![0x10, 0x00, 0x00, 0x00, 0x00, 0x00, 0x00, 0x00],
        "read_config should read the resized capacity"
    );
    assert!(
        b.active.as_ref().unwrap().interrupt.read_config_changed(),
        "INTERRUPT_STATUS_CONFIG_CHANGED should be signaled"
    );

    // the reclaimed image carries the new length.
    b.reset();
    assert_eq!(
        b.disk_image.as_ref().unwrap().get_len(),
        resized_size,
        "underlying disk image should be resized to the new size"
    );
}

#[test]
fn resize_with_single_worker() {
    resize(false);
}

#[test]
fn resize_with_multiple_workers() {
    // Test resize handled by one worker affect the whole state
    resize(true);
}

#[test]
fn resize_read_only_is_refused() {
    let mut b = BlockAsync::new(
        BASE_FEATURES,
        Disk::zeroed(0x1000),
        true,
        false,
        512,
        false,
        None,
        Some(Tube::new()),
        None,
        None,
    )
    .unwrap();
    b.activate(Interrupt::new(), two_queues()).unwrap();
    let resp = b.handle_control(DiskControlCommand::Resize { new_size: 0x2000 });
    assert_eq!(resp, Err(vmm_core::control::EROFS));
    assert_eq!(b.disk_size, 0x1000);
    assert!(!b.active.as_ref().unwrap().interrupt.read_config_changed());
}

#[test]
fn run_worker_threads() {
    // single worker thread
    let mut b = BlockAsync::new(
        BASE_FEATURES,
        Disk::zeroed(0x1000),
        true,
        false,
        512,
        false, // run with single worker thread
        None,
        None,
        None,
        None,
    )
    .unwrap();
    b.activate(Interrupt::new(), two_queues()).expect("activate should succeed");
    assert_eq!(b.worker_threads.len(), 1, "1 threads should be spawned.");
    drop(b);

    // multiple worker threads
    let mut b = BlockAsync::new(
        BASE_FEATURES,
        Disk::zeroed(0x1000),
        true,
        false,
        512,
        true,
        None,
        None,
        None,
        None,
    )
    .unwrap();
    b.activate(Interrupt::new(), two_queues()).expect("activate should succeed");
    assert_eq!(b.worker_threads.len(), 2, "2 threads should be spawned.");
}
