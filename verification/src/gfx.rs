//! Data carried across the boundary to the stream renderer: its key/value
//! initialisation parameters, exported resource handles, and Vulkan
//! information.  The renderer itself runs outside this crate; these types
//! hold the plain values the calls exchange.

use vstd::prelude::*;

verus! {

pub const STREAM_RENDERER_PARAM_USER_DATA: u64 = 1;

pub const STREAM_RENDERER_PARAM_RENDERER_FLAGS: u64 = 2;

pub const STREAM_RENDERER_PARAM_FENCE_CALLBACK: u64 = 3;

pub const STREAM_RENDERER_PARAM_WIN0_WIDTH: u64 = 4;

pub const STREAM_RENDERER_PARAM_WIN0_HEIGHT: u64 = 5;

/// One key/value initialisation parameter of the stream renderer.
#[allow(non_camel_case_types)]
#[derive(Clone, Copy, Debug)]
pub struct stream_renderer_param {
    key: u64,
    value: u64,
}

impl stream_renderer_param {
    /// The parameter's key.
    pub closed spec fn spec_key(self) -> u64 {
        self.key
    }

    /// The parameter's value.
    pub closed spec fn spec_value(self) -> u64 {
        self.value
    }

    /// A parameter with the given key and value.
    pub fn new(key: u64, value: u64) -> (p: stream_renderer_param)
        ensures
            p.spec_key() == key,
            p.spec_value() == value,
    {
        stream_renderer_param { key, value }
    }
}

/// An exported resource handle: the OS handle and what kind it is.
#[allow(non_camel_case_types)]
#[derive(Clone, Copy, Debug, PartialEq, Eq, Structural)]
pub struct stream_renderer_handle {
    pub os_handle: i64,
    pub handle_type: u32,
}

/// Vulkan information of an exported resource.
#[allow(non_camel_case_types)]
#[derive(Clone, Copy, Debug)]
pub struct stream_renderer_vulkan_info {
    pub memory_index: u32,
    pub device_uuid: [u8; 16],
    pub driver_uuid: [u8; 16],
}

/// The accelerated-rendering backend state tracker.  All of its operations
/// go through the renderer's foreign interface and live outside this crate.
pub struct Gfxstream {}

/// The double-word count of a command buffer handed to the renderer, or
/// nothing when the buffer is not a whole number of double words - such a
/// buffer is an invalid command submission.
pub fn command_dword_count(len: usize) -> (r: Option<usize>)
    ensures
        len % 4 == 0 ==> r == Some(len / 4),
        len % 4 != 0 ==> r is None,
{
    if len % 4 == 0 {
        Some(len / 4)
    } else {
        None
    }
}

/// The window parameters handed to the renderer on initialisation: the
/// flags and the display's width and height, each under its key.
pub fn display_params(display_width: u32, display_height: u32, flags: u64) -> (ps: Vec<
    stream_renderer_param,
>)
    ensures
        ps@.len() == 3,
        ps@[0].spec_key() == STREAM_RENDERER_PARAM_RENDERER_FLAGS,
        ps@[0].spec_value() == flags,
        ps@[1].spec_key() == STREAM_RENDERER_PARAM_WIN0_WIDTH,
        ps@[1].spec_value() == display_width,
        ps@[2].spec_key() == STREAM_RENDERER_PARAM_WIN0_HEIGHT,
        ps@[2].spec_value() == display_height,
{
    let mut ps: Vec<stream_renderer_param> = Vec::new();
    ps.push(stream_renderer_param::new(STREAM_RENDERER_PARAM_RENDERER_FLAGS, flags));
    ps.push(stream_renderer_param::new(STREAM_RENDERER_PARAM_WIN0_WIDTH, display_width as u64));
    ps.push(stream_renderer_param::new(STREAM_RENDERER_PARAM_WIN0_HEIGHT, display_height as u64));
    ps
}

} // verus!
