//! Tests of the VCPU loop state machine, the lock discipline, the config
//! space layout, and the peripheral device types.

use vmm_core::block_device::run_worker_outcome;
use vmm_core::block_device::BlockAsync;
use vmm_core::block_device::DeviceType;
use vmm_core::block_device::WorkerError;
use vmm_core::block_defs::ControlError;
use vmm_core::codec::BlockingMode;
use vmm_core::gfx::display_params;
use vmm_core::gfx::stream_renderer_handle;
use vmm_core::rwlock_model::AsyncMutex;
use vmm_core::snd::ParametersError;
use vmm_core::snd::StreamSourceBackend;
use vmm_core::vcpu::apply_control;
use vmm_core::vcpu::clamp_io_size;
use vmm_core::vcpu::dispatch_exit;
use vmm_core::vcpu::final_event;
use vmm_core::vcpu::io_read_initial_buffer;
use vmm_core::vcpu::signal_clear_plan;
use vmm_core::vcpu::ControlAction;
use vmm_core::vcpu::ExitAction;
use vmm_core::vcpu::ExitState;
use vmm_core::vcpu::MsrHandlers;
use vmm_core::vcpu::SignalClearAction;
use vmm_core::vcpu::VcpuControl;
use vmm_core::vcpu::VcpuExit;
use vmm_core::vcpu::VmEventType;
use vmm_core::vcpu::VmRunMode;
use vmm_core::vcpu::EAGAIN;
use vmm_core::vcpu::EINTR;

#[test]
fn config_space_capacity_formula() {
    // capacity == disk_size >> 9, little-endian in the first eight bytes.
    let c = BlockAsync::build_config_space(0x4000, 126, 512, 16);
    let bytes = c.to_bytes();
    assert_eq!(bytes.len(), 60);
    assert_eq!(&bytes[0..8], &(0x4000u64 >> 9).to_le_bytes());
    assert_eq!(&bytes[12..16], &126u32.to_le_bytes());
    assert_eq!(&bytes[20..24], &512u32.to_le_bytes());
    assert_eq!(&bytes[34..36], &16u16.to_le_bytes());
    assert_eq!(&bytes[36..40], &u32::MAX.to_le_bytes());
    assert_eq!(&bytes[40..44], &32u32.to_le_bytes());
    assert_eq!(&bytes[44..48], &128u32.to_le_bytes());
    assert_eq!(bytes[56], 1);
}

#[test]
fn device_type_is_block() {
    let b = BlockAsync::new(
        0,
        vmm_core::disk_model::Disk::zeroed(0x1000),
        false,
        true,
        512,
        false,
        None,
        None,
        None,
        None,
    )
    .unwrap();
    assert_eq!(b.device_type(), DeviceType::Block);
}

#[test]
fn exclusive_lock_is_exclusive() {
    // No two exclusive locks are held simultaneously: a second request is
    // refused until the first is released, as is any reader.
    let mut m = AsyncMutex::new();
    assert!(m.try_lock());
    assert!(!m.try_lock());
    assert!(!m.try_read_lock());
    m.unlock();
    assert!(m.try_read_lock());
    assert!(m.try_read_lock());
    // Readers exclude the writer, and the writer waits for all of them.
    assert!(!m.try_lock());
    m.read_unlock();
    m.read_unlock();
    assert!(m.try_lock());
}

#[test]
fn control_messages_drive_run_mode() {
    let mut mode = VmRunMode::Running;
    let a = apply_control(&mut mode, false, false, true, VcpuControl::RunState(VmRunMode::Suspending));
    assert_eq!(mode, VmRunMode::Suspending);
    assert_eq!(a, ControlAction::PvclockCtrl);

    let a = apply_control(&mut mode, true, true, false, VcpuControl::MakeRT);
    assert_eq!(mode, VmRunMode::Suspending);
    assert_eq!(a, ControlAction::SetRtPriority);

    let a = apply_control(&mut mode, true, false, false, VcpuControl::MakeRT);
    assert_eq!(a, ControlAction::Nothing);

    let a = apply_control(&mut mode, false, false, false, VcpuControl::GetStates);
    assert_eq!(a, ControlAction::ReplyStates(VmRunMode::Suspending));

    let a = apply_control(&mut mode, false, false, false, VcpuControl::RunState(VmRunMode::Exiting));
    assert_eq!(mode, VmRunMode::Exiting);
    assert_eq!(a, ControlAction::Exit(ExitState::Stop));
}

#[test]
fn exit_dispatch_mappings() {
    assert_eq!(dispatch_exit(VcpuExit::Io), ExitAction::HandleIo);
    assert_eq!(dispatch_exit(VcpuExit::Mmio), ExitAction::HandleMmio);
    assert_eq!(dispatch_exit(VcpuExit::Hlt), ExitAction::Halted);
    assert_eq!(
        dispatch_exit(VcpuExit::Shutdown),
        ExitAction::Return(ExitState::Stop)
    );
    assert_eq!(
        dispatch_exit(VcpuExit::SystemEventReset),
        ExitAction::Return(ExitState::Reset)
    );
    assert_eq!(
        dispatch_exit(VcpuExit::SystemEventCrash),
        ExitAction::Return(ExitState::Stop)
    );
    assert_eq!(
        dispatch_exit(VcpuExit::FailEntry),
        ExitAction::Return(ExitState::Crash)
    );
    assert_eq!(dispatch_exit(VcpuExit::Debug), ExitAction::EnterBreakpoint);
    assert_eq!(dispatch_exit(VcpuExit::BusLock), ExitAction::RateLimitSleep);
    assert_eq!(
        dispatch_exit(VcpuExit::Errno { errno: EINTR }),
        ExitAction::MarkInterrupted
    );
    assert_eq!(
        dispatch_exit(VcpuExit::Errno { errno: EAGAIN }),
        ExitAction::Nothing
    );
    assert_eq!(
        dispatch_exit(VcpuExit::Errno { errno: 5 }),
        ExitAction::Return(ExitState::Crash)
    );
    assert_eq!(
        dispatch_exit(VcpuExit::RdMsr { index: 0x1b }),
        ExitAction::ReadMsr(0x1b)
    );
}

#[test]
fn bus_reads_are_clamped_and_zero_filled() {
    assert_eq!(clamp_io_size(4), 4);
    assert_eq!(clamp_io_size(8), 8);
    assert_eq!(clamp_io_size(16), 8);
    assert_eq!(io_read_initial_buffer(), vec![0u8; 8]);
}

#[test]
fn signal_clearing_follows_kick_path() {
    assert_eq!(signal_clear_plan(false, true), SignalClearAction::Nothing);
    assert_eq!(signal_clear_plan(true, true), SignalClearAction::ClearSignal);
    assert_eq!(
        signal_clear_plan(true, false),
        SignalClearAction::ClearImmediateExit
    );
}

#[test]
fn final_event_mapping() {
    assert_eq!(final_event(ExitState::Stop), VmEventType::Exit);
    assert_eq!(final_event(ExitState::Reset), VmEventType::Reset);
    assert_eq!(final_event(ExitState::Crash), VmEventType::Crash);
    assert_eq!(
        final_event(ExitState::WatchdogReset),
        VmEventType::WatchdogReset
    );
}

#[test]
fn unknown_msrs_are_ignored() {
    let mut h = MsrHandlers::new();
    assert_eq!(h.read(0x1b), None);
    assert_eq!(h.write(0x1b, 7), None);
    h.add_handler(0x1b, 0);
    assert_eq!(h.read(0x1b), Some(0));
    assert_eq!(h.write(0x1b, 7), Some(()));
    assert_eq!(h.read(0x1b), Some(7));
    assert_eq!(h.read(0x2c), None);
}

#[test]
fn worker_outcome_reports_first_failing_arm() {
    assert_eq!(run_worker_outcome(None, None, None), Ok(()));
    assert_eq!(run_worker_outcome(Some(Ok(())), Some(Ok(())), None), Ok(()));
    assert_eq!(
        run_worker_outcome(Some(Err(ControlError::FsyncDisk)), None, None),
        Err(WorkerError::Flush(ControlError::FsyncDisk))
    );
    assert_eq!(
        run_worker_outcome(
            Some(Ok(())),
            Some(Err(vmm_core::block_defs::ExecuteError::ReceivingCommand)),
            None
        ),
        Err(WorkerError::Control(
            vmm_core::block_defs::ExecuteError::ReceivingCommand
        ))
    );
}

#[test]
fn stream_source_backend_names() {
    assert_eq!(StreamSourceBackend::try_from("cras"), Ok(StreamSourceBackend::CRAS));
    assert_eq!(
        StreamSourceBackend::try_from("pulse"),
        Err(ParametersError::InvalidBackend)
    );
    assert_eq!(StreamSourceBackend::CRAS.name(), "cras");
}

#[test]
fn blocking_mode_defaults_to_blocking() {
    assert_eq!(BlockingMode::default(), BlockingMode::Blocking);
}

#[test]
fn renderer_param_values() {
    let ps = display_params(1280, 800, 3);
    assert_eq!(ps.len(), 3);
    let h = stream_renderer_handle { os_handle: -1, handle_type: 0 };
    assert_eq!(h, stream_renderer_handle { os_handle: -1, handle_type: 0 });
}

#[test]
fn command_buffers_are_whole_dwords() {
    assert_eq!(vmm_core::gfx::command_dword_count(16), Some(4));
    assert_eq!(vmm_core::gfx::command_dword_count(0), Some(0));
    assert_eq!(vmm_core::gfx::command_dword_count(6), None);
}

#[test]
fn playback_period_frames() {
    // A 4096-byte period of 4-byte frames holds 1024 frames.
    assert_eq!(vmm_core::snd::period_frames(4096, 4), 1024);
}
