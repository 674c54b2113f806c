//! Connected displays, normalised from what the operating system reports.
//!
//! The operating system is asked elsewhere; this library takes its answer as
//! plain values ([`NativeDisplay`]) and turns it into one record per active
//! display ([`DisplayInfo`]), and finds a record by point or by name.

pub mod display;
pub mod error;
pub mod native;
pub mod theorems;

pub use display::DisplayInfo;
pub use error::DisplayError;
pub use native::{NativeDisplay, NativeRotation, ScreenRawHandle};
