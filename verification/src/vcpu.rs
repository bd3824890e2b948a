//! The VCPU execution loop as a state machine.
//!
//! One OS thread owns the VCPU and multiplexes three inputs: hypervisor
//! exits, control messages from the main thread, and a real-time kick
//! signal that forces an exit from a blocking hypervisor call.  Every
//! decision the loop takes - how a control message changes the run mode,
//! what each exit reason leads to, when the pending signal must be cleared
//! - is a function here with an exact contract.  The thread itself, the
//! hypervisor calls and the signal delivery are the unverifiable shell
//! around these functions.

use vstd::prelude::*;

verus! {

/// Errno for a hypervisor call interrupted by a signal.
pub const EINTR: i32 = 4;

/// Errno for a hypervisor call that would block.
pub const EAGAIN: i32 = 11;

/// Scheduling priority a VCPU thread is raised to when made real-time.
pub const DEFAULT_VCPU_RT_LEVEL: u16 = 6;

/// The run mode of the virtual machine, as the VCPU thread tracks it.
#[derive(Debug, Clone, Copy, PartialEq, Eq, Structural)]
pub enum VmRunMode {
    /// The VM is running.
    Running,
    /// The VM is suspending; the VCPU parks until told otherwise.
    Suspending,
    /// The VM stopped on a debugger breakpoint.
    Breakpoint,
    /// The VM is shutting down.
    Exiting,
}

/// How the VCPU loop ended.
#[derive(Debug, Clone, Copy, PartialEq, Eq, Structural)]
pub enum ExitState {
    /// Orderly stop.
    Stop,
    /// The guest asked for a system reset.
    Reset,
    /// An unrecoverable failure.
    Crash,
    /// A watchdog demanded a reset.
    WatchdogReset,
    /// The guest kernel panicked.
    GuestPanic,
}

/// The event reported to the main thread when the VCPU thread ends.
#[derive(Debug, Clone, Copy, PartialEq, Eq, Structural)]
pub enum VmEventType {
    /// Orderly exit.
    Exit,
    /// System reset.
    Reset,
    /// Crash.
    Crash,
    /// Watchdog reset.
    WatchdogReset,
}

/// A control message from the main thread to one VCPU thread.
#[derive(Debug, Clone, Copy, PartialEq, Eq, Structural)]
pub enum VcpuControl {
    /// Change the run mode.
    RunState(VmRunMode),
    /// Raise the thread to real-time priority, if that was deferred.
    MakeRT,
    /// Report the current run mode back.
    GetStates,
    /// Snapshot the VCPU and report the result back.
    Snapshot,
    /// Restore the VCPU from a snapshot and report the result back.
    Restore,
    /// Forward a command to the debugger bridge.
    Debug,
}

/// Why the hypervisor handed the VCPU back.
#[derive(Debug, Clone, Copy, PartialEq, Eq, Structural)]
pub enum VcpuExit {
    /// A port I/O access to satisfy on the I/O bus.
    Io,
    /// A memory-mapped access to satisfy on the MMIO bus.
    Mmio,
    /// A model-specific register read.
    RdMsr { index: u32 },
    /// A model-specific register write.
    WrMsr { index: u32, data: u64 },
    /// An end-of-interrupt to broadcast to the interrupt chip.
    IoapicEoi { vector: u32 },
    /// The interrupt window opened; nothing to do.
    IrqWindowOpen,
    /// The guest executed HLT.
    Hlt,
    /// The guest shut down.
    Shutdown,
    /// The hardware refused to enter the guest.
    FailEntry,
    /// System event: shutdown.
    SystemEventShutdown,
    /// System event: reset.
    SystemEventReset,
    /// System event: crash.
    SystemEventCrash,
    /// A debug exit.
    Debug,
    /// The guest locked the bus; throttle it.
    BusLock,
    /// An exit reason this loop does not recognise; logged and ignored.
    Unknown,
    /// The run call itself failed with an errno.
    Errno { errno: i32 },
}

/// What the shell must do after a control message was applied.
#[derive(Debug, Clone, Copy, PartialEq, Eq, Structural)]
pub enum ControlAction {
    /// Nothing.
    Nothing,
    /// Tell the hypervisor's paravirt clock that this VCPU suspends, so the
    /// guest's soft-lockup watchdog stays quiescent across the gap.
    PvclockCtrl,
    /// Raise this thread to round-robin scheduling at the default level.
    SetRtPriority,
    /// Reply to the sender with the given run mode.
    ReplyStates(VmRunMode),
    /// Snapshot the VCPU and send the result.
    DoSnapshot,
    /// Restore the VCPU and send the result.
    DoRestore,
    /// Invoke the debugger bridge.
    DoDebug,
    /// Leave the loop with the given exit state.
    Exit(ExitState),
}

/// What `apply_control` does: the new run mode and the action for the shell.
pub open spec fn apply_control_spec(
    mode: VmRunMode,
    run_rt: bool,
    delay_rt: bool,
    requires_pvclock_ctrl: bool,
    msg: VcpuControl,
) -> (VmRunMode, ControlAction) {
    match msg {
        VcpuControl::RunState(new_mode) => (
            new_mode,
            match new_mode {
                VmRunMode::Running => ControlAction::Nothing,
                VmRunMode::Suspending => if requires_pvclock_ctrl {
                    ControlAction::PvclockCtrl
                } else {
                    ControlAction::Nothing
                },
                VmRunMode::Breakpoint => ControlAction::Nothing,
                VmRunMode::Exiting => ControlAction::Exit(ExitState::Stop),
            },
        ),
        VcpuControl::MakeRT => (
            mode,
            if run_rt && delay_rt {
                ControlAction::SetRtPriority
            } else {
                ControlAction::Nothing
            },
        ),
        VcpuControl::GetStates => (mode, ControlAction::ReplyStates(mode)),
        VcpuControl::Snapshot => (mode, ControlAction::DoSnapshot),
        VcpuControl::Restore => (mode, ControlAction::DoRestore),
        VcpuControl::Debug => (mode, ControlAction::DoDebug),
    }
}

/// Applies one control message to the run mode and says what the shell must
/// do: `RunState` switches the mode (suspending may need a paravirt-clock
/// hint, exiting stops the loop); `MakeRT` raises the priority only if
/// real-time was requested and deferred; the query messages reply without
/// changing the mode.
pub fn apply_control(
    run_mode: &mut VmRunMode,
    run_rt: bool,
    delay_rt: bool,
    requires_pvclock_ctrl: bool,
    msg: VcpuControl,
) -> (action: ControlAction)
    ensures
        (*final(run_mode), action) == apply_control_spec(
            *old(run_mode),
            run_rt,
            delay_rt,
            requires_pvclock_ctrl,
            msg,
        ),
{
    match msg {
        VcpuControl::RunState(new_mode) => {
            *run_mode = new_mode;
            match new_mode {
                VmRunMode::Running => ControlAction::Nothing,
                VmRunMode::Suspending => {
                    if requires_pvclock_ctrl {
                        ControlAction::PvclockCtrl
                    } else {
                        ControlAction::Nothing
                    }
                },
                VmRunMode::Breakpoint => ControlAction::Nothing,
                VmRunMode::Exiting => ControlAction::Exit(ExitState::Stop),
            }
        },
        VcpuControl::MakeRT => {
            if run_rt && delay_rt {
                ControlAction::SetRtPriority
            } else {
                ControlAction::Nothing
            }
        },
        VcpuControl::GetStates => ControlAction::ReplyStates(*run_mode),
        VcpuControl::Snapshot => ControlAction::DoSnapshot,
        VcpuControl::Restore => ControlAction::DoRestore,
        VcpuControl::Debug => ControlAction::DoDebug,
    }
}

/// The state loop runs when the last iteration was interrupted by the kick
/// signal or the VM is not running; otherwise the VCPU goes straight back
/// into the hypervisor.
pub fn should_enter_state_loop(interrupted_by_signal: bool, run_mode: VmRunMode) -> (b: bool)
    ensures
        b == (interrupted_by_signal || run_mode != VmRunMode::Running),
{
    interrupted_by_signal || !matches!(run_mode, VmRunMode::Running)
}

/// With no message pending and the VM running, the state cannot change and
/// the state loop is left; in any other mode the thread must block until a
/// message arrives.
pub fn block_on_empty_channel(run_mode: VmRunMode) -> (block: bool)
    ensures
        block == (run_mode != VmRunMode::Running),
{
    !matches!(run_mode, VmRunMode::Running)
}

/// What the shell must do after one hypervisor exit.
#[derive(Debug, Clone, Copy, PartialEq, Eq, Structural)]
pub enum ExitAction {
    /// Satisfy the access on the I/O bus.
    HandleIo,
    /// Satisfy the access on the MMIO bus.
    HandleMmio,
    /// Look the register up in the MSR handlers and reply if known.
    ReadMsr(u32),
    /// Hand the write to the MSR handlers; unknown registers drop it.
    WriteMsr { index: u32, data: u64 },
    /// Broadcast the end-of-interrupt to the interrupt chip.
    BroadcastEoi(u32),
    /// Tell the interrupt chip this VCPU halted.
    Halted,
    /// Ask the rate limiter for a delay and sleep it.
    RateLimitSleep,
    /// Enter breakpoint mode.
    EnterBreakpoint,
    /// Remember that the kick signal interrupted the run.
    MarkInterrupted,
    /// Nothing.
    Nothing,
    /// Leave the loop with the given exit state.
    Return(ExitState),
}

/// What each exit reason leads to: buses satisfy accesses, terminal events
/// end the loop, `EINTR` marks the signal, `EAGAIN` and unknown exits are
/// ignored, any other errno is a crash.
pub open spec fn dispatch_exit_spec(exit: VcpuExit) -> ExitAction {
    match exit {
        VcpuExit::Io => ExitAction::HandleIo,
        VcpuExit::Mmio => ExitAction::HandleMmio,
        VcpuExit::RdMsr { index } => ExitAction::ReadMsr(index),
        VcpuExit::WrMsr { index, data } => ExitAction::WriteMsr { index, data },
        VcpuExit::IoapicEoi { vector } => ExitAction::BroadcastEoi(vector),
        VcpuExit::IrqWindowOpen => ExitAction::Nothing,
        VcpuExit::Hlt => ExitAction::Halted,
        VcpuExit::Shutdown => ExitAction::Return(ExitState::Stop),
        VcpuExit::FailEntry => ExitAction::Return(ExitState::Crash),
        VcpuExit::SystemEventShutdown => ExitAction::Return(ExitState::Stop),
        VcpuExit::SystemEventReset => ExitAction::Return(ExitState::Reset),
        VcpuExit::SystemEventCrash => ExitAction::Return(ExitState::Stop),
        VcpuExit::Debug => ExitAction::EnterBreakpoint,
        VcpuExit::BusLock => ExitAction::RateLimitSleep,
        VcpuExit::Unknown => ExitAction::Nothing,
        VcpuExit::Errno { errno } => if errno == EINTR {
            ExitAction::MarkInterrupted
        } else if errno == EAGAIN {
            ExitAction::Nothing
        } else {
            ExitAction::Return(ExitState::Crash)
        },
    }
}

/// Dispatches one hypervisor exit, as `dispatch_exit_spec` states.
pub fn dispatch_exit(exit: VcpuExit) -> (a: ExitAction)
    ensures
        a == dispatch_exit_spec(exit),
{
    match exit {
        VcpuExit::Io => ExitAction::HandleIo,
        VcpuExit::Mmio => ExitAction::HandleMmio,
        VcpuExit::RdMsr { index } => ExitAction::ReadMsr(index),
        VcpuExit::WrMsr { index, data } => ExitAction::WriteMsr { index, data },
        VcpuExit::IoapicEoi { vector } => ExitAction::BroadcastEoi(vector),
        VcpuExit::IrqWindowOpen => ExitAction::Nothing,
        VcpuExit::Hlt => ExitAction::Halted,
        VcpuExit::Shutdown => ExitAction::Return(ExitState::Stop),
        VcpuExit::FailEntry => ExitAction::Return(ExitState::Crash),
        VcpuExit::SystemEventShutdown => ExitAction::Return(ExitState::Stop),
        VcpuExit::SystemEventReset => ExitAction::Return(ExitState::Reset),
        VcpuExit::SystemEventCrash => ExitAction::Return(ExitState::Stop),
        VcpuExit::Debug => ExitAction::EnterBreakpoint,
        VcpuExit::BusLock => ExitAction::RateLimitSleep,
        VcpuExit::Unknown => ExitAction::Nothing,
        VcpuExit::Errno { errno } => {
            if errno == EINTR {
                ExitAction::MarkInterrupted
            } else if errno == EAGAIN {
                ExitAction::Nothing
            } else {
                ExitAction::Return(ExitState::Crash)
            }
        },
    }
}

/// A bus access larger than the 8-byte transfer buffer is clamped to it
/// (and logged by the shell).
pub fn clamp_io_size(size: usize) -> (c: usize)
    ensures
        c == (if size > 8 {
            8int
        } else {
            size as int
        }),
{
    if size > 8 {
        8
    } else {
        size
    }
}

/// The transfer buffer a bus read starts from: 8 zero bytes, so locations
/// no device claims read as zero.
pub fn io_read_initial_buffer() -> (b: Vec<u8>)
    ensures
        b@.len() == 8,
        forall|i: int| 0 <= i < 8 ==> b@[i] == 0u8,
{
    let mut b: Vec<u8> = Vec::new();
    let mut i: usize = 0;
    while i < 8
        invariant
            i <= 8,
            b@.len() == i,
            forall|j: int| 0 <= j < i ==> b@[j] == 0u8,
        decreases 8 - i,
    {
        b.push(0u8);
        i = i + 1;
    }
    b
}

/// After an interrupted run the pending kick must be cleared before pause
/// requests are handled: the signal itself on the hypervisor-signal path,
/// the VCPU's immediate-exit flag otherwise.  A stuck pending signal would
/// loop forever, which is why a failed clear crashes.
#[derive(Debug, Clone, Copy, PartialEq, Eq, Structural)]
pub enum SignalClearAction {
    /// Clear the pending real-time signal.
    ClearSignal,
    /// Clear the VCPU's immediate-exit flag.
    ClearImmediateExit,
    /// Nothing was interrupted; nothing to clear.
    Nothing,
}

/// Decides how to acknowledge the kick after one iteration.
pub fn signal_clear_plan(interrupted_by_signal: bool, use_hypervisor_signals: bool) -> (a:
    SignalClearAction)
    ensures
        a == (if !interrupted_by_signal {
            SignalClearAction::Nothing
        } else if use_hypervisor_signals {
            SignalClearAction::ClearSignal
        } else {
            SignalClearAction::ClearImmediateExit
        }),
{
    if !interrupted_by_signal {
        SignalClearAction::Nothing
    } else if use_hypervisor_signals {
        SignalClearAction::ClearSignal
    } else {
        SignalClearAction::ClearImmediateExit
    }
}

/// The event the main thread is told when the loop ends.  The loop never
/// exits with a guest panic, so that state is left out.
pub fn final_event(exit: ExitState) -> (e: VmEventType)
    requires
        exit != ExitState::GuestPanic,
    ensures
        exit == ExitState::Stop ==> e == VmEventType::Exit,
        exit == ExitState::Reset ==> e == VmEventType::Reset,
        exit == ExitState::Crash ==> e == VmEventType::Crash,
        exit == ExitState::WatchdogReset ==> e == VmEventType::WatchdogReset,
{
    match exit {
        ExitState::Stop => VmEventType::Exit,
        ExitState::Reset => VmEventType::Reset,
        ExitState::Crash => VmEventType::Crash,
        ExitState::WatchdogReset => VmEventType::WatchdogReset,
        ExitState::GuestPanic => {
            proof {
                assert(false);
            }
            VmEventType::Crash
        },
    }
}

/// The value registered for `index` in a list of handler entries, front
/// entries taking precedence.
pub open spec fn msr_lookup(s: Seq<(u32, u64)>, index: u32) -> Option<u64>
    decreases s.len(),
{
    if s.len() == 0 {
        None
    } else if s[0].0 == index {
        Some(s[0].1)
    } else {
        msr_lookup(s.skip(1), index)
    }
}

/// The MSR handlers of one VCPU thread: the registers user space chose to
/// take over, each with its current value.  Reads of registers nobody
/// registered return nothing and writes to them are dropped.
pub struct MsrHandlers {
    entries: Vec<(u32, u64)>,
}

impl MsrHandlers {
    /// The registered entries, front entries taking precedence.
    pub closed spec fn entries_view(self) -> Seq<(u32, u64)> {
        self.entries@
    }

    /// The value registered for `index`, if any.
    pub open spec fn handled(self, index: u32) -> Option<u64> {
        msr_lookup(self.entries_view(), index)
    }

    /// No registers handled.
    pub fn new() -> (m: MsrHandlers)
        ensures
            m.entries_view() == Seq::<(u32, u64)>::empty(),
    {
        let m = MsrHandlers { entries: Vec::new() };
        proof {
            assert(m.entries_view() =~= Seq::<(u32, u64)>::empty());
        }
        m
    }

    /// Registers a handler for `index` with initial value `data`; an
    /// existing handler keeps the register.
    pub fn add_handler(&mut self, index: u32, data: u64)
        ensures
            final(self).handled(index) is Some,
            old(self).handled(index) is Some ==> *final(self) == *old(self),
            old(self).handled(index) is None ==> final(self).entries_view() == old(
                self,
            ).entries_view().insert(0, (index, data)),
            forall|other: u32|
                other != index ==> #[trigger] final(self).handled(other) == old(self).handled(
                    other,
                ),
    {
        let n = self.entries.len();
        proof {
            assert(self.entries@.skip(0) =~= self.entries@);
        }
        let mut i: usize = 0;
        while i < n
            invariant
                i <= n,
                n == self.entries@.len(),
                self == old(self),
                msr_lookup(self.entries@, index) == msr_lookup(self.entries@.skip(i as int), index),
            decreases n - i,
        {
            if self.entries[i].0 == index {
                proof {
                    assert(self.entries@.skip(i as int)[0] == self.entries@[i as int]);
                }
                return ;
            }
            proof {
                assert(self.entries@.skip(i as int).skip(1) =~= self.entries@.skip(i + 1));
            }
            i = i + 1;
        }
        proof {
            assert(self.entries@.skip(n as int) =~= Seq::<(u32, u64)>::empty());
        }
        self.entries.insert(0, (index, data));
        proof {
            assert(self.entries@.skip(1) =~= old(self).entries_view());
        }
    }

    /// Reads a handled register; `None` when nobody registered it (the
    /// shell then gives the guest no data).
    pub fn read(&self, index: u32) -> (r: Option<u64>)
        ensures
            r == self.handled(index),
    {
        let n = self.entries.len();
        proof {
            assert(self.entries@.skip(0) =~= self.entries@);
        }
        let mut i: usize = 0;
        while i < n
            invariant
                i <= n,
                n == self.entries@.len(),
                msr_lookup(self.entries@, index) == msr_lookup(self.entries@.skip(i as int), index),
            decreases n - i,
        {
            if self.entries[i].0 == index {
                proof {
                    assert(self.entries@.skip(i as int)[0] == self.entries@[i as int]);
                }
                return Some(self.entries[i].1);
            }
            proof {
                assert(self.entries@.skip(i as int).skip(1) =~= self.entries@.skip(i + 1));
            }
            i = i + 1;
        }
        proof {
            assert(self.entries@.skip(n as int) =~= Seq::<(u32, u64)>::empty());
        }
        None
    }

    /// Writes a handled register; `None` - the write is dropped - when
    /// nobody registered it.
    pub fn write(&mut self, index: u32, data: u64) -> (r: Option<()>)
        ensures
            r is Some <==> old(self).handled(index) is Some,
            old(self).handled(index) is None ==> *final(self) == *old(self),
            old(self).handled(index) is Some ==> final(self).handled(index) == Some(data),
            forall|other: u32|
                other != index ==> #[trigger] final(self).handled(other) == old(self).handled(
                    other,
                ),
    {
        let n = self.entries.len();
        proof {
            assert(self.entries@.skip(0) =~= self.entries@);
        }
        let mut i: usize = 0;
        while i < n
            invariant
                i <= n,
                n == self.entries@.len(),
                self == old(self),
                msr_lookup(self.entries@, index) == msr_lookup(self.entries@.skip(i as int), index),
                forall|k: int| 0 <= k < i ==> (#[trigger] self.entries@[k]).0 != index,
            decreases n - i,
        {
            if self.entries[i].0 == index {
                proof {
                    assert(self.entries@.skip(i as int)[0] == self.entries@[i as int]);
                }
                self.entries.set(i, (index, data));
                proof {
                    lemma_msr_lookup_update(old(self).entries_view(), self.entries@, i as int);
                }
                return Some(());
            }
            proof {
                assert(self.entries@.skip(i as int).skip(1) =~= self.entries@.skip(i + 1));
            }
            i = i + 1;
        }
        proof {
            assert(self.entries@.skip(n as int) =~= Seq::<(u32, u64)>::empty());
        }
        None
    }
}

/// Updating the entry at `at` in place changes only lookups of its key, and
/// only when no earlier entry shadows it.
proof fn lemma_msr_lookup_update(pre: Seq<(u32, u64)>, post: Seq<(u32, u64)>, at: int)
    requires
        pre.len() == post.len(),
        0 <= at < pre.len(),
        forall|k: int| 0 <= k < pre.len() && k != at ==> pre[k] == post[k],
        forall|k: int| 0 <= k < at ==> (#[trigger] pre[k]).0 != pre[at].0,
        post[at].0 == pre[at].0,
    ensures
        msr_lookup(post, pre[at].0) == Some(post[at].1),
        forall|other: u32| other != pre[at].0 ==> msr_lookup(post, other) == msr_lookup(pre, other),
    decreases pre.len(),
{
    if at == 0 {
        assert forall|other: u32| other != pre[at].0 implies msr_lookup(post, other) == msr_lookup(
            pre,
            other,
        ) by {
            assert(pre.skip(1) =~= post.skip(1));
        }
    } else {
        lemma_msr_lookup_update(pre.skip(1), post.skip(1), at - 1);
        assert(pre.skip(1)[at - 1] == pre[at]);
        assert(msr_lookup(post, pre[at].0) == msr_lookup(post.skip(1), pre[at].0));
        assert forall|other: u32| other != pre[at].0 implies msr_lookup(post, other) == msr_lookup(
            pre,
            other,
        ) by {
            if post[0].0 != other {
                assert(msr_lookup(post.skip(1), other) == msr_lookup(pre.skip(1), other));
            }
        }
    }
}

} // verus!
