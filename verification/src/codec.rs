//! Interfaces of the stateless video decoders: the error taxonomy, the
//! blocking mode, and the traits through which decoded frames are handed to
//! clients.  Backends implement these outside this crate; the traits state
//! no contracts, so nothing is assumed of such implementations.

use vstd::prelude::*;

verus! {

/// A width and height in pixels.
#[derive(Debug, Clone, Copy, PartialEq, Eq, Structural)]
pub struct Resolution {
    pub width: u32,
    pub height: u32,
}

/// Failures specific to stateless decoder backends.
#[derive(Debug)]
pub enum StatelessBackendError {
    /// Not enough resources to proceed with the operation now.
    OutOfResources,
    /// This resource is not ready.
    ResourceNotReady,
    /// This format is not supported.
    UnsupportedFormat,
    /// Negotiation failed.
    NegotiationFailed(String),
    /// Any other backend failure, described in prose.
    Other(String),
}

/// Failures of the decoding layer.
#[derive(Debug)]
pub enum Error {
    /// A backend failure, passed through.
    StatelessBackendError(StatelessBackendError),
    /// Any other failure, described in prose.
    Other(String),
}

/// Instructs the decoder on whether it should block on decode operations.
/// Non-blocking mode is conditional on backend support.
#[derive(Debug, Clone, Copy, PartialEq, Eq, Structural)]
pub enum BlockingMode {
    Blocking,
    NonBlocking,
}

impl Default for BlockingMode {
    /// Decoders block unless asked otherwise.
    fn default() -> (m: Self)
        ensures
            m == BlockingMode::Blocking,
    {
        BlockingMode::Blocking
    }
}

/// A type that can be mapped into the client's address space.
pub trait MappableHandle {
    /// Reads the contents of `self` into `buffer`, whose length must equal
    /// `image_size`.
    fn read(&mut self, buffer: &mut Vec<u8>) -> Result<(), Error>;

    /// The buffer length `read` requires.
    fn image_size(&mut self) -> usize;
}

/// Codec-specific information for a single frame.
pub trait FrameInfo {
    /// The display resolution of this frame.
    fn display_resolution(&self) -> Resolution;
}

/// Gives exclusive access to the backend picture behind a handle.
pub trait DynHandle {
    /// The mappable picture type.
    type Mappable;

    /// Exclusive access to the picture, assuming one backs this handle.
    fn dyn_mappable_handle_mut(&mut self) -> &mut Self::Mappable;
}

/// A decoded frame as handed to clients that do not care which backend
/// produced it.
pub trait DynDecodedHandle {
    /// The backend picture type.
    type Picture;

    /// Exclusive access to the backend picture.
    fn dyn_picture_mut(&mut self) -> &mut Self::Picture;

    /// The timestamp of the picture.
    fn timestamp(&self) -> u64;

    /// The display resolution at the time this frame was decoded.
    fn display_resolution(&self) -> Resolution;

    /// The display order, if the decoder set one.
    fn display_order(&self) -> Option<u64>;
}

/// The handle type used by the stateless decoder backends: access to the
/// underlying backend handle, plus presentation metadata.
pub trait DecodedHandle {
    /// The type of the handle used by the backend.
    type BackendHandle;

    /// Shared access to the backend handle.
    fn handle(&self) -> &Self::BackendHandle;

    /// Exclusive access to the backend handle.
    fn handle_mut(&mut self) -> &mut Self::BackendHandle;

    /// The display order, if the decoder set one.
    fn display_order(&self) -> Option<u64>;

    /// Sets the display order.
    fn set_display_order(&mut self, display_order: u64);

    /// The timestamp of the picture.
    fn timestamp(&self) -> u64;

    /// The display resolution at the time this handle was decoded.
    fn display_resolution(&self) -> Resolution;
}

/// Every decoded handle can be handed out as a backend-agnostic one.
impl<T: DecodedHandle> DynDecodedHandle for T {
    type Picture = <T as DecodedHandle>::BackendHandle;

    fn dyn_picture_mut(&mut self) -> &mut Self::Picture {
        self.handle_mut()
    }

    fn timestamp(&self) -> u64 {
        DecodedHandle::timestamp(self)
    }

    fn display_resolution(&self) -> Resolution {
        DecodedHandle::display_resolution(self)
    }

    fn display_order(&self) -> Option<u64> {
        DecodedHandle::display_order(self)
    }
}

/// The interface of a video decoder.
pub trait VideoDecoder {
    /// The decoded-frame handle type.
    type Handle;

    /// Decodes the bitstream chunk stamped `timestamp`, returning zero or
    /// more decoded frames.
    fn decode(&mut self, timestamp: u64, bitstream: &Vec<u8>) -> Result<Vec<Self::Handle>, Error>;

    /// Finishes all queued decode requests and emits their frames.
    fn flush(&mut self) -> Result<Vec<Self::Handle>, Error>;

    /// Whether format negotiation is possible now; true once enough stream
    /// metadata was read, until the next `decode` call.
    fn negotiation_possible(&self) -> bool;

    /// Output resources left after accounting for queued buffers.
    fn num_resources_left(&self) -> Option<usize>;

    /// Output resources allocated by the backend.
    fn num_resources_total(&self) -> usize;

    /// The coded resolution of the stream, once known.
    fn coded_resolution(&self) -> Option<Resolution>;

    /// Emits frames for queued requests without flushing state.
    fn poll(&mut self, blocking_mode: BlockingMode) -> Result<Vec<Self::Handle>, Error>;
}

} // verus!
