//! Verified core of a user-space virtual machine monitor: the virtio-block
//! request pipeline with its flush coordinator, resize control plane and
//! worker lifecycle, the VCPU run-loop state machine, and the small data
//! types shared with the peripheral device backends.
//!
//! The asynchronous shell around this core (executors, timers, event and
//! tube transports, the hypervisor itself) is a set of collaborators that
//! only perform I/O; every decision they carry is taken by a function in
//! this crate, stated in its contract and proved.

pub mod block_defs;
pub mod block_device;
pub mod block_exec;
pub mod bytes;
pub mod codec;
pub mod control;
pub mod desc_chain;
pub mod disk_model;
pub mod disk_state;
pub mod flush;
pub mod gfx;
pub mod laws;
pub mod pipeline;
pub mod rwlock_model;
pub mod service;
pub mod snd;
pub mod vcpu;
pub mod virtqueue;
