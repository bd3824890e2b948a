//! The deferred-flush timer and its coordinator.
//!
//! A write arms a one-shot timer; when it fires and the armed flag is still
//! set, the coordinator clears the flag *before* syncing, so a write that
//! completes during the sync re-arms the timer and is committed on the next
//! expiry.  Clearing after the sync would lose exactly those writes.

use vstd::prelude::*;

use crate::disk_state::DiskState;

verus! {

/// Errno for a timer descriptor read that returned no expiration.
pub const ENODATA: i32 = 61;

/// Interprets the byte count a timer descriptor read returned: an expiry is
/// exactly one 8-byte expiration count; anything else is no data.
pub fn timer_read_outcome(n: usize) -> (r: Result<(), i32>)
    ensures
        n == 8 ==> r == Ok::<(), i32>(()),
        n != 8 ==> r == Err::<(), i32>(ENODATA),
{
    if n != 8 {
        Err(ENODATA)
    } else {
        Ok(())
    }
}

/// Delay between a write and the deferred flush it arms, in milliseconds.
pub const FLUSH_DELAY_MS: u64 = 60000;

/// Model of the one-shot flush timer: whether it is armed and for how long.
pub struct FlushTimer {
    armed: bool,
    delay_ms: u64,
}

impl FlushTimer {
    /// Whether the timer is armed.
    pub closed spec fn is_armed(self) -> bool {
        self.armed
    }

    /// The delay the timer was last armed with, in milliseconds.
    pub closed spec fn delay(self) -> u64 {
        self.delay_ms
    }

    /// A disarmed timer.
    pub fn new() -> (t: FlushTimer)
        ensures
            !t.is_armed(),
    {
        FlushTimer { armed: false, delay_ms: 0 }
    }

    /// Arms (or re-arms) the timer to fire once after `delay_ms`.
    pub fn reset(&mut self, delay_ms: u64)
        ensures
            final(self).is_armed(),
            final(self).delay() == delay_ms,
    {
        self.armed = true;
        self.delay_ms = delay_ms;
    }

    /// Disarms the timer.
    pub fn clear(&mut self)
        ensures
            !final(self).is_armed(),
            final(self).delay() == old(self).delay(),
    {
        self.armed = false;
    }

    /// The timer fires: a one-shot timer that has fired is no longer armed.
    pub fn fire(&mut self)
        ensures
            !final(self).is_armed(),
            final(self).delay() == old(self).delay(),
    {
        self.armed = false;
    }

    /// Whether the timer is armed.
    pub fn read_armed(&self) -> (b: bool)
        ensures
            b == self.is_armed(),
    {
        self.armed
    }

    /// The delay the timer was last armed with, in milliseconds.
    pub fn read_delay(&self) -> (d: u64)
        ensures
            d == self.delay(),
    {
        self.delay_ms
    }
}

/// One expiry of the flush timer: if the armed flag is set, clear it and then
/// sync the disk; the flag is cleared strictly before the sync.  Returns
/// whether a sync was issued.  The flusher task loops forever awaiting the
/// timer; each expiry is one call of this function.
pub fn flush_disk(disk_state: &DiskState, armed: &mut bool) -> (flushed: bool)
    ensures
        flushed == *old(armed),
        !*final(armed),
{
    if !*armed {
        return false;
    }
    // Reset armed before the sync so that writes landing after this point
    // re-arm the timer and are committed on the next expiry.
    *armed = false;
    disk_state.disk_image.fsync();
    true
}

} // verus!
