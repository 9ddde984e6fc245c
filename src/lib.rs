//! Driver for Hitachi HD44780-compatible character LCD controllers.
//!
//! The driver speaks the controller's bus protocol: the power-on
//! initialization handshake, 4-bit and 8-bit transfer framing, readiness
//! waits (busy-flag polling or fixed delays) and the display commands.
//!
//! Every operation is specified by the exact sequence of signals it drives
//! onto the attached device (see [`Signal`] and [`Device::trace`]).

pub mod command;
pub mod display;
pub mod hardware;
pub mod protocol;

pub use command::{
    Command, Direction, DisplayBlink, DisplayCursor, DisplayMode, EntryModeDirection,
    EntryModeShift, FunctionDots, FunctionLine, FunctionMode, Scroll,
};
pub use display::Display;
pub use hardware::{Delay, Device, Hardware, Signal};
