//! The driver's view of the attached controller: the signal lines it drives,
//! the data it reads back and the time it waits.
//!
//! A device is modelled by the list of signals driven onto it so far
//! ([`Device::trace`]) together with two settings fixed for its lifetime: the
//! bus width and whether the busy flag can be read. Each method of
//! [`Hardware`] and [`Delay`] that acts on the device appends exactly one
//! signal to the trace (commits and address set-up waits included, whether or
//! not the transport needs them) and keeps both settings.

use crate::command::FunctionMode;
use vstd::prelude::*;

verus! {

/// One observable action on the controller's interface.
#[derive(Copy, Clone, Debug, PartialEq, Eq, Structural)]
pub enum Signal {
    /// Register-select line: `false` for instructions and status, `true` for data.
    Rs(bool),
    /// Enable strobe line.
    Enable(bool),
    /// Value placed on the data lines (a nibble on a 4-bit bus).
    Data(u8),
    /// Read/write line: `true` while reading.
    Rw(bool),
    /// Value read from the data lines.
    Read(u8),
    /// Blocking wait, in microseconds.
    Delay(u32),
    /// Commit of the lines set so far.
    Apply,
    /// Address set-up wait (tAS) before a transfer.
    WaitAddress,
}

/// Abstract state of an attached controller.
///
/// The bodies given here describe a device that records nothing; an
/// implementation that is verified against [`Hardware`] and [`Delay`]
/// overrides all three.
pub trait Device {
    /// Signals driven onto the device so far, oldest first.
    open spec fn trace(&self) -> Seq<Signal> {
        Seq::empty()
    }

    /// Width of the data bus.
    open spec fn bus_width(&self) -> FunctionMode {
        FunctionMode::Bit4
    }

    /// Whether the busy flag can be read back from the device.
    open spec fn reads_busy_flag(&self) -> bool {
        false
    }
}

/// Access to the controller's lines.
pub trait Hardware: Device {
    /// Sets the register-select line.
    fn rs(&mut self, bit: bool)
        ensures
            final(self).trace() == old(self).trace().push(Signal::Rs(bit)),
            final(self).bus_width() == old(self).bus_width(),
            final(self).reads_busy_flag() == old(self).reads_busy_flag(),
    ;

    /// Sets the enable line.
    fn enable(&mut self, bit: bool)
        ensures
            final(self).trace() == old(self).trace().push(Signal::Enable(bit)),
            final(self).bus_width() == old(self).bus_width(),
            final(self).reads_busy_flag() == old(self).reads_busy_flag(),
    ;

    /// Sets the data lines (only the lowest 4 bits are used on a 4-bit bus).
    fn data(&mut self, data: u8)
        ensures
            final(self).trace() == old(self).trace().push(Signal::Data(data)),
            final(self).bus_width() == old(self).bus_width(),
            final(self).reads_busy_flag() == old(self).reads_busy_flag(),
    ;

    /// Address set-up time is 40ns minimum (tAS).
    /// Where the processor is slow enough for 40ns to pass between two calls,
    /// nothing needs to happen here on the lines.
    fn wait_address(&mut self)
        ensures
            final(self).trace() == old(self).trace().push(Signal::WaitAddress),
            final(self).bus_width() == old(self).bus_width(),
            final(self).reads_busy_flag() == old(self).reads_busy_flag(),
    ;

    /// Width of the data bus, fixed for the device's lifetime.
    fn mode(&self) -> (r: FunctionMode)
        ensures
            r == self.bus_width(),
    ;

    /// Whether the data lines can be read; if so, `rw` and `read_data` work.
    fn can_read(&self) -> (r: bool)
        ensures
            r == self.reads_busy_flag(),
    ;

    /// Sets the read/write line.
    ///
    /// Implementations configure the data pins for input _before_ setting it to
    /// `true`, and for output _after_ setting it to `false`.
    fn rw(&mut self, bit: bool)
        requires
            old(self).reads_busy_flag(),
        ensures
            final(self).trace() == old(self).trace().push(Signal::Rw(bit)),
            final(self).bus_width() == old(self).bus_width(),
            final(self).reads_busy_flag() == old(self).reads_busy_flag(),
    ;

    /// Reads the data lines (D0-D7 on an 8-bit bus, D4-D7 on a 4-bit bus).
    fn read_data(&mut self) -> (r: u8)
        requires
            old(self).reads_busy_flag(),
        ensures
            final(self).trace() == old(self).trace().push(Signal::Read(r)),
            final(self).bus_width() == old(self).bus_width(),
            final(self).reads_busy_flag() == old(self).reads_busy_flag(),
    ;

    /// Commits the lines set so far to the device. Called after every change
    /// of the lines.
    ///
    /// Needed where control and data lines must change together (an I2C
    /// expander); directly attached lines need nothing to happen here.
    fn apply(&mut self)
        ensures
            final(self).trace() == old(self).trace().push(Signal::Apply),
            final(self).bus_width() == old(self).bus_width(),
            final(self).reads_busy_flag() == old(self).reads_busy_flag(),
    ;
}

/// Blocking time source.
pub trait Delay: Device {
    /// Delays for the given amount of time, in microseconds.
    fn delay_us(&mut self, delay_usec: u32)
        ensures
            final(self).trace() == old(self).trace().push(Signal::Delay(delay_usec)),
            final(self).bus_width() == old(self).bus_width(),
            final(self).reads_busy_flag() == old(self).reads_busy_flag(),
    ;
}

} // verus!
