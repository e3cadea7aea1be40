//! Descriptors of the single output of the framebuffer variant.
use vstd::prelude::*;

verus! {

/// Width of the framebuffer variant's output, in pixels.
pub const FALLBACK_WIDTH: u32 = 800;

/// Height of the framebuffer variant's output, in pixels.
pub const FALLBACK_HEIGHT: u32 = 480;

/// Bits per pixel that the framebuffer variant reports.
pub const FB_BIT_DEPTH: u16 = 32;

/// Refresh rate, in hertz, that the framebuffer variant reports.
pub const FB_REFRESH_RATE: u16 = 60;

#[derive(Debug, Clone, Copy, PartialEq, Eq, Structural)]
pub struct PhysicalSize {
    pub width: u32,
    pub height: u32,
}

#[derive(Debug, Clone, Copy, PartialEq, Eq, Structural)]
pub struct PhysicalPosition {
    pub x: i32,
    pub y: i32,
}

/// The identity of the one input device that events are attributed to.
#[derive(Debug, Clone, Copy, PartialEq, Eq, Structural)]
pub struct DeviceId;

impl DeviceId {
    pub fn dummy() -> Self {
        DeviceId
    }
}

/// The identity of the one fullscreen window.
#[derive(Debug, Clone, Copy, PartialEq, Eq, Structural)]
pub struct WindowId;

impl WindowId {
    pub fn dummy() -> Self {
        WindowId
    }
}

/// Geometry and name of the framebuffer output; fixed at startup.
#[derive(Debug, Clone, PartialEq, Eq, Hash)]
pub struct FBInfo {
    width: u32,
    height: u32,
    name: String,
}

impl FBInfo {
    pub closed spec fn size_spec(&self) -> (u32, u32) {
        (self.width, self.height)
    }

    pub closed spec fn name_spec(&self) -> Seq<char> {
        self.name@
    }

    pub fn new(size: (u32, u32), name: String) -> (r: Self)
        ensures
            r.size_spec() == size,
            r.name_spec() == name@,
    {
        FBInfo { width: size.0, height: size.1, name }
    }

    /// The output of a framebuffer whose geometry is not queried: the fixed
    /// fallback size, under the device's identifier.
    pub fn with_fallback_size(name: String) -> (r: Self)
        ensures
            r.size_spec() == (FALLBACK_WIDTH, FALLBACK_HEIGHT),
            r.name_spec() == name@,
    {
        FBInfo { width: FALLBACK_WIDTH, height: FALLBACK_HEIGHT, name }
    }

    /// An equal descriptor.
    pub fn duplicate(&self) -> (r: Self)
        ensures
            r.size_spec() == self.size_spec(),
            r.name_spec() == self.name_spec(),
    {
        FBInfo { width: self.width, height: self.height, name: self.name.clone() }
    }

    pub fn physical_size(&self) -> (r: PhysicalSize)
        ensures
            r == (PhysicalSize { width: self.size_spec().0, height: self.size_spec().1 }),
    {
        PhysicalSize { width: self.width, height: self.height }
    }
}

/// The framebuffer output, as a monitor.
#[derive(Debug, Clone, PartialEq, Eq, Hash)]
pub struct MonitorHandle {
    info: FBInfo,
}

/// One video mode of the framebuffer output.
#[derive(Debug, Clone, PartialEq, Eq, Hash)]
pub struct VideoMode {
    info: FBInfo,
}

impl MonitorHandle {
    pub closed spec fn info_size(&self) -> (u32, u32) {
        self.info.size_spec()
    }

    pub closed spec fn info_name(&self) -> Seq<char> {
        self.info.name_spec()
    }

    pub fn new(info: &FBInfo) -> (r: Self)
        ensures
            r.info_size() == info.size_spec(),
            r.info_name() == info.name_spec(),
    {
        MonitorHandle { info: info.duplicate() }
    }

    pub fn name(&self) -> (r: Option<String>)
        ensures
            r matches Some(n) && n@ == self.info_name(),
    {
        Some(self.info.name.clone())
    }

    /// Always 0: the framebuffer output has no numeric identifier.
    pub fn native_identifier(&self) -> (r: u32)
        ensures
            r == 0,
    {
        0
    }

    pub fn size(&self) -> (r: PhysicalSize)
        ensures
            r == (PhysicalSize { width: self.info_size().0, height: self.info_size().1 }),
    {
        self.info.physical_size()
    }

    /// Always the origin: the only output.
    pub fn position(&self) -> (r: PhysicalPosition)
        ensures
            r == (PhysicalPosition { x: 0, y: 0 }),
    {
        PhysicalPosition { x: 0, y: 0 }
    }

    /// The output's one mode, with the output's geometry.
    pub fn video_modes(&self) -> (r: Vec<VideoMode>)
        ensures
            r@.len() == 1,
            r@[0].mode_size() == self.info_size(),
            r@[0].mode_name() == self.info_name(),
    {
        let mut modes: Vec<VideoMode> = Vec::new();
        modes.push(VideoMode { info: self.info.duplicate() });
        modes
    }
}

impl VideoMode {
    pub closed spec fn mode_size(&self) -> (u32, u32) {
        self.info.size_spec()
    }

    pub closed spec fn mode_name(&self) -> Seq<char> {
        self.info.name_spec()
    }

    pub fn size(&self) -> (r: PhysicalSize)
        ensures
            r == (PhysicalSize { width: self.mode_size().0, height: self.mode_size().1 }),
    {
        self.info.physical_size()
    }

    pub fn bit_depth(&self) -> (r: u16)
        ensures
            r == FB_BIT_DEPTH,
    {
        FB_BIT_DEPTH
    }

    pub fn refresh_rate(&self) -> (r: u16)
        ensures
            r == FB_REFRESH_RATE,
    {
        FB_REFRESH_RATE
    }

    /// The monitor this mode belongs to.
    pub fn monitor(&self) -> (r: MonitorHandle)
        ensures
            r.info_size() == self.mode_size(),
            r.info_name() == self.mode_name(),
    {
        MonitorHandle { info: self.info.duplicate() }
    }
}

} // verus!
