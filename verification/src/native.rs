use vstd::prelude::*;

verus! {

/// The operating system's own handle of a display, kept so that a caller can
/// hand it back to the operating system.
#[derive(Clone, Copy, Debug, PartialEq, Eq, Structural)]
pub enum ScreenRawHandle {
    /// An X11 RandR output.
    X11Output(u32),
    /// A Core Graphics display id.
    CoreGraphics(u32),
    /// A Win32 monitor handle.
    Win32Monitor(i64),
}

/// A display's rotation in the unit in which the operating system gave it.
#[derive(Clone, Copy, Debug, PartialEq, Eq, Structural)]
pub enum NativeRotation {
    /// Clockwise degrees.
    Degrees(i32),
    /// A count of clockwise quarter turns.
    QuarterTurns(u32),
    /// The operating system gave none.
    Unknown,
}

impl NativeRotation {
    /// The rotation in clockwise degrees: 0, 90, 180 or 270 as reported, and
    /// 0 for anything else.
    pub open spec fn spec_degrees(self) -> u32 {
        match self {
            NativeRotation::Degrees(d) => if d == 90 || d == 180 || d == 270 {
                d as u32
            } else {
                0
            },
            NativeRotation::QuarterTurns(q) => if 1 <= q <= 3 {
                (90 * q) as u32
            } else {
                0
            },
            NativeRotation::Unknown => 0,
        }
    }

    /// The rotation in clockwise degrees.
    pub fn degrees(&self) -> (deg: u32)
        ensures
            deg == self.spec_degrees(),
            deg == 0 || deg == 90 || deg == 180 || deg == 270,
    {
        match *self {
            NativeRotation::Degrees(d) => if d == 90 || d == 180 || d == 270 {
                d as u32
            } else {
                0
            },
            NativeRotation::QuarterTurns(q) => if 1 <= q && q <= 3 {
                90 * q
            } else {
                0
            },
            NativeRotation::Unknown => 0,
        }
    }
}

/// One display as the operating system reports it, before normalisation.
#[derive(Clone, Debug, PartialEq, Eq)]
pub struct NativeDisplay {
    /// The display's name; empty where the operating system has none.
    pub name: String,
    /// The operating system's identifier of the display.
    pub id: u32,
    /// The operating system's handle of the display.
    pub raw_handle: ScreenRawHandle,
    /// The left edge in the virtual desktop.
    pub x: i32,
    /// The top edge in the virtual desktop.
    pub y: i32,
    /// The width of the active mode in pixels; 0 where no mode is active.
    pub width: u32,
    /// The height of the active mode in pixels; 0 where no mode is active.
    pub height: u32,
    /// The physical width in millimetres, where known.
    pub width_mm: Option<i32>,
    /// The physical height in millimetres, where known.
    pub height_mm: Option<i32>,
    /// The rotation, in the operating system's unit.
    pub rotation: NativeRotation,
    /// The pixel scale factor in thousandths (2000 for a factor of two).
    pub scale_factor: u32,
    /// The refresh rate in millihertz, where known.
    pub frequency: Option<u32>,
    /// Whether the operating system marks this display as the main one.
    pub is_primary: bool,
}

impl NativeDisplay {
    /// A display is active when its mode has a width and a height.
    pub open spec fn spec_is_active(&self) -> bool {
        self.width > 0 && self.height > 0
    }

    /// Whether the display is active.
    #[verifier::when_used_as_spec(spec_is_active)]
    pub fn is_active(&self) -> (active: bool)
        ensures
            active == self.spec_is_active(),
    {
        self.width > 0 && self.height > 0
    }
}

} // verus!
