//! The sound backend selector and the playback buffer bookkeeping of the
//! virtio-snd device.  The audio server connection itself is an outside
//! service; what is verified here is the name mapping and the period-size
//! arithmetic.

use vstd::prelude::*;

verus! {

/// Failures of sound parameter parsing.
#[derive(Debug, Clone, Copy, PartialEq, Eq, Structural)]
pub enum ParametersError {
    /// The named stream source backend is not known.
    InvalidBackend,
}

/// Which audio server serves the streams.
#[derive(Debug, Clone, Copy, PartialEq, Eq, Structural)]
pub enum StreamSourceBackend {
    /// The ChromeOS audio server.
    CRAS,
}

impl StreamSourceBackend {
    /// The configuration name of this backend, used for serialisation.
    pub fn name(&self) -> (s: String)
        ensures
            s@ == "cras"@,
    {
        "cras".to_owned()
    }

    /// Parses a backend from its configuration name: only `"cras"` is
    /// known; anything else is an invalid backend.
    pub fn try_from(s: &str) -> (r: Result<StreamSourceBackend, ParametersError>)
        ensures
            s@ == "cras"@ ==> r == Ok::<StreamSourceBackend, ParametersError>(
                StreamSourceBackend::CRAS,
            ),
            s@ != "cras"@ ==> r == Err::<StreamSourceBackend, ParametersError>(
                ParametersError::InvalidBackend,
            ),
    {
        let owned = s.to_owned();
        let cras = "cras".to_owned();
        if owned == cras {
            Ok(StreamSourceBackend::CRAS)
        } else {
            Err(ParametersError::InvalidBackend)
        }
    }
}

/// Writes guest audio periods to the host stream.  The guest and endpoint
/// period sizes coincide on this platform.
pub struct UnixBufferWriter {
    guest_period_bytes: usize,
}

impl PlaybackBufferWriter for UnixBufferWriter {
    fn new(guest_period_bytes: usize) -> (w: UnixBufferWriter) {
        UnixBufferWriter { guest_period_bytes }
    }

    fn endpoint_period_bytes(&self) -> (n: usize) {
        self.guest_period_bytes
    }
}

/// How the per-platform buffer writer feeds periods to the host stream.
/// Platforms implement it outside this crate; no contract is assumed.
pub trait PlaybackBufferWriter {
    /// A writer for periods of `guest_period_bytes`.
    fn new(guest_period_bytes: usize) -> Self where Self: core::marker::Sized;

    /// The period size the endpoint consumes.
    fn endpoint_period_bytes(&self) -> usize;
}

/// The number of audio frames one period holds, given the frame size.  This
/// is the buffer size handed to the stream source: the stream consumes one
/// period per buffer.
pub fn period_frames(period_bytes: usize, frame_size: usize) -> (n: usize)
    requires
        frame_size > 0,
    ensures
        n == period_bytes / frame_size,
{
    period_bytes / frame_size
}

} // verus!
