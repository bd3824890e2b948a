//! Product-specific hooks of the service integration, in their generic
//! form: the build without a controlling service leaves them empty, and the
//! run loop calls them unconditionally.

use vstd::prelude::*;

verus! {

/// A message received from the controlling service.  The generic build
/// carries none.
pub struct MessageFromService {}

/// State mirrored to the controlling service.  The generic build mirrors
/// nothing.
pub struct ServiceVmState {}

impl ServiceVmState {
    /// Records the VM's memory size for the service.  Nothing to record
    /// in the generic build.
    pub fn set_memory_size(&mut self, _size: u64)
        ensures
            *final(self) == *old(self),
    {
    }

    /// Sends the current state to the service.  Nothing to send in the
    /// generic build.
    pub fn generate_send_state_message(&self) {
    }
}

/// Creates the service-facing VM state for a VM of the given memory size.
pub fn create_service_vm_state(_memory_size_mb: u64) -> ServiceVmState {
    ServiceVmState {  }
}

/// Sets the package name from a service message.  The generic build has no
/// package names.
pub fn set_package_name(_msg: &MessageFromService) {
}

/// Merges serialized session invariants into the metrics state.  The
/// generic build keeps no session invariants.
pub fn merge_session_invariants(_serialized_session_invariants: &Vec<u8>) {
}

/// Whether the virtio sound device is enabled; never in the generic build.
pub fn virtio_sound_enabled() -> (b: bool)
    ensures
        !b,
{
    false
}

/// How many input sound devices are configured; none in the generic build.
pub fn num_input_sound_devices() -> (n: u32)
    ensures
        n == 0,
{
    0
}

/// How many input sound streams are configured; none in the generic build.
pub fn num_input_sound_streams() -> (n: u32)
    ensures
        n == 0,
{
    0
}

} // verus!
