//! Verified core of a daemon that exposes the front-panel controls of a
//! UA Volt 276 audio interface (compressor buttons, vintage switches) as a
//! Linux input device.
//!
//! - [`protocol`]: the bytes of a HID report and what they mean.
//! - [`report`]: from a report to the states of the controls and the input
//!   events that stand for them.
//! - [`event`]: input events and the records written to emit them.
//! - [`uinput`]: the ioctl requests that create the virtual device.
//! - [`laws`]: properties that tie these together.
pub mod event;
pub mod laws;
pub mod protocol;
pub mod report;
pub mod uinput;
