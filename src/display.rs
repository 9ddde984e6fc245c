//! The driver: every operation drives the signals that the protocol model
//! gives for it, and nothing else.

use crate::command::{
    cgram_byte, display_control_byte, entry_mode_byte, position_byte, row_offset, shift_byte,
    Command, Direction, DisplayBlink, DisplayCursor, DisplayMode, EntryModeDirection,
    EntryModeShift, FunctionDots, FunctionLine, FunctionMode, Scroll,
};
use crate::hardware::{Delay, Device, Hardware, Signal};
use crate::protocol::{
    bootstrap, bootstrap_waits, data_write, data_writes, initialization, instruction, is_busy,
    lemma_receives_append, lemma_receives_one, long_instruction, nibble, poll_count, polled,
    pulse, ready_reads, ready_waits, reads_per_poll, receive, receives, status, transfer,
    wait_ready, DATA_WRITE_US, DEFAULT_WAIT_US, LONG_WAIT_US, POLL_LIMIT,
};
use vstd::prelude::*;
use vstd::string::StringSliceAdditionalSpecFns;

verus! {

/// Object implementing the HD44780 protocol. It holds no state besides the
/// device it drives, so it can be created as many times as needed.
pub struct Display<HW: Hardware + Delay> {
    hw: HW,
}

/// `core::fmt::Error`, declared so that `core::fmt::Result` can stand in a
/// signature; nothing is assumed of its values.
#[verifier::external_type_specification]
#[verifier::external_body]
pub struct ExFmtError(core::fmt::Error);

impl<HW: Hardware + Delay> core::fmt::Write for Display<HW> {
    /// Prints `s`, as [`Display::print`] does; never fails.
    fn write_str(&mut self, s: &str) -> (r: core::fmt::Result)
        ensures
            r is Ok,
            final(self).bus_width() == old(self).bus_width(),
            final(self).reads_busy_flag() == old(self).reads_busy_flag(),
            exists|waits: Seq<Seq<u8>>|
                waits.len() == s.spec_bytes().len() && ready_waits(
                    old(self).bus_width(),
                    old(self).reads_busy_flag(),
                    waits,
                ) && final(self).trace() == old(self).trace() + #[trigger] data_writes(
                    old(self).bus_width(),
                    old(self).reads_busy_flag(),
                    s.spec_bytes(),
                    waits,
                ),
    {
        self.print(s);
        Ok(())
    }
}

impl<HW: Hardware + Delay> Display<HW> {
    /// The device this display drives.
    pub closed spec fn device(&self) -> HW {
        self.hw
    }

    /// Signals driven onto the device so far.
    pub open spec fn trace(&self) -> Seq<Signal> {
        self.device().trace()
    }

    /// Width of the device's data bus.
    pub open spec fn bus_width(&self) -> FunctionMode {
        self.device().bus_width()
    }

    /// Whether readiness is polled through the busy flag.
    pub open spec fn reads_busy_flag(&self) -> bool {
        self.device().reads_busy_flag()
    }

    /// Takes the device to drive.
    pub fn new(hw: HW) -> (r: Display<HW>)
        ensures
            r.device() == hw,
    {
        Display { hw }
    }

    /// Hands the device back.
    pub fn unwrap(self) -> (hw: HW)
        ensures
            hw == self.device(),
    {
        self.hw
    }

    fn pulse_enable(&mut self)
        ensures
            final(self).trace() == old(self).trace() + pulse(),
            final(self).bus_width() == old(self).bus_width(),
            final(self).reads_busy_flag() == old(self).reads_busy_flag(),
    {
        self.hw.enable(true);
        self.hw.apply();
        // minimum delay is 450 ns
        self.hw.delay_us(1);
        self.hw.enable(false);
        self.hw.apply();
        assert(self.trace() =~= old(self).trace() + pulse());
    }

    fn send_data(&mut self, data: u8)
        ensures
            final(self).trace() == old(self).trace() + nibble(data),
            final(self).bus_width() == old(self).bus_width(),
            final(self).reads_busy_flag() == old(self).reads_busy_flag(),
    {
        self.hw.data(data);
        self.hw.apply();
        self.pulse_enable();
        assert(self.trace() =~= old(self).trace() + nibble(data));
    }

    fn send(&mut self, data: u8)
        ensures
            final(self).trace() == old(self).trace() + transfer(old(self).bus_width(), data),
            final(self).bus_width() == old(self).bus_width(),
            final(self).reads_busy_flag() == old(self).reads_busy_flag(),
    {
        match self.hw.mode() {
            FunctionMode::Bit8 => {
                self.send_data(data);
            },
            FunctionMode::Bit4 => {
                self.send_data(data >> 4);
                self.send_data(data & 0xf);
                assert(self.trace() =~= old(self).trace() + transfer(old(self).bus_width(), data));
            },
        }
    }

    fn receive_data(&mut self) -> (data: u8)
        requires
            old(self).reads_busy_flag(),
        ensures
            final(self).trace() == old(self).trace() + receive(data),
            final(self).bus_width() == old(self).bus_width(),
            final(self).reads_busy_flag() == old(self).reads_busy_flag(),
    {
        self.hw.enable(true);
        self.hw.apply();
        self.hw.delay_us(1);
        let data = self.hw.read_data();
        self.hw.delay_us(1);
        self.hw.enable(false);
        self.hw.apply();
        assert(self.trace() =~= old(self).trace() + receive(data));
        data
    }

    /// Reads one status byte; the ghost part holds the raw reads it took.
    fn receive(&mut self) -> (res: (u8, Ghost<Seq<u8>>))
        requires
            old(self).reads_busy_flag(),
        ensures
            res.1@.len() == reads_per_poll(old(self).bus_width()),
            res.0 == status(old(self).bus_width(), res.1@, 0),
            final(self).trace() == old(self).trace() + receives(res.1@),
            final(self).bus_width() == old(self).bus_width(),
            final(self).reads_busy_flag() == old(self).reads_busy_flag(),
    {
        match self.hw.mode() {
            FunctionMode::Bit8 => {
                let data = self.receive_data();
                let ghost reads = seq![data];
                proof {
                    lemma_receives_one(data);
                }
                (data, Ghost(reads))
            },
            FunctionMode::Bit4 => {
                let high = self.receive_data();
                let low = self.receive_data();
                let ghost reads = seq![high, low];
                assert(reads.drop_last() =~= seq![high]);
                proof {
                    lemma_receives_one(high);
                }
                assert(self.trace() =~= old(self).trace() + receives(reads));
                ((high << 4) | (low & 0xf), Ghost(reads))
            },
        }
    }

    /// Waits until the controller is ready for the next instruction: polls
    /// the busy flag where the device can be read, else waits `delay`
    /// microseconds. Returns what the polls read.
    fn wait_ready(&mut self, delay: u32) -> (reads: Ghost<Seq<u8>>)
        ensures
            ready_reads(old(self).bus_width(), old(self).reads_busy_flag(), reads@),
            final(self).trace() == old(self).trace() + wait_ready(
                old(self).bus_width(),
                old(self).reads_busy_flag(),
                delay,
                reads@,
            ),
            final(self).bus_width() == old(self).bus_width(),
            final(self).reads_busy_flag() == old(self).reads_busy_flag(),
    {
        if self.hw.can_read() {
            self.hw.rs(false);
            // Read mode
            self.hw.rw(true);
            self.hw.apply();
            // tAS
            self.hw.wait_address();
            let ghost start = self.trace();
            let ghost mode = self.bus_width();
            let ghost mut done: Seq<u8> = Seq::empty();
            let mut polls: u64 = 0;
            loop
                invariant_except_break
                    polls < POLL_LIMIT,
                    forall|j: int| 0 <= j < polls ==> is_busy(#[trigger] status(mode, done, j)),
                invariant
                    self.trace() == start + receives(done),
                    self.bus_width() == mode,
                    self.reads_busy_flag(),
                    done.len() == reads_per_poll(mode) * polls,
                ensures
                    polled(mode, done),
                    self.trace() == start + receives(done),
                    self.bus_width() == mode,
                    self.reads_busy_flag(),
                decreases POLL_LIMIT - polls,
            {
                let (value, Ghost(more)) = self.receive();
                proof {
                    lemma_receives_append(done, more);
                    if mode == FunctionMode::Bit4 {
                        assert(done.len() == 2 * polls);
                        assert forall|j: int| 0 <= j < polls implies status(mode, done + more, j)
                            == status(mode, done, j) by {
                            assert((done + more)[2 * j] == done[2 * j]);
                            assert((done + more)[2 * j + 1] == done[2 * j + 1]);
                        }
                        assert((done + more)[2 * polls] == more[0]);
                        assert((done + more)[2 * polls + 1] == more[1]);
                    } else {
                        assert(reads_per_poll(mode) == 1);
                        assert(done.len() == polls) by (nonlinear_arith)
                            requires
                                done.len() == reads_per_poll(mode) * polls,
                                reads_per_poll(mode) == 1,
                        ;
                        assert forall|j: int| 0 <= j < polls implies status(mode, done + more, j)
                            == status(mode, done, j) by {
                            assert((done + more)[j] == done[j]);
                        }
                        assert((done + more)[polls as int] == more[0]);
                    }
                    assert(status(mode, done + more, polls as int) == status(mode, more, 0));
                    assert forall|j: int| 0 <= j < polls implies is_busy(#[trigger] status(mode, done + more, j)) by {
                        assert(is_busy(status(mode, done, j)));
                    }
                    done = done + more;
                }
                polls = polls + 1;
                proof {
                    assert(poll_count(mode, done) == polls && done.len() as int % reads_per_poll(mode) == 0)
                        by (nonlinear_arith)
                        requires
                            done.len() == reads_per_poll(mode) * polls,
                            reads_per_poll(mode) == 1 || reads_per_poll(mode) == 2,
                            poll_count(mode, done) == done.len() as int / reads_per_poll(mode),
                    ;
                }
                if value & 0x80 == 0 || polls == POLL_LIMIT {
                    break;
                }
            }
            // tAH is 10ns, less than one cycle: no wait needed before leaving read mode.
            self.hw.rw(false);
            self.hw.apply();
            assert(self.trace() =~= old(self).trace() + wait_ready(mode, true, delay, done));
            Ghost(done)
        } else {
            // Cannot read the busy flag, so wait it out.
            self.hw.delay_us(delay);
            assert(self.trace() =~= old(self).trace() + wait_ready(self.bus_width(), false, delay, Seq::empty()));
            Ghost(Seq::empty())
        }
    }

    /// Typical instruction wait time is 37us.
    fn wait_ready_default(&mut self) -> (reads: Ghost<Seq<u8>>)
        ensures
            ready_reads(old(self).bus_width(), old(self).reads_busy_flag(), reads@),
            final(self).trace() == old(self).trace() + wait_ready(
                old(self).bus_width(),
                old(self).reads_busy_flag(),
                DEFAULT_WAIT_US,
                reads@,
            ),
            final(self).bus_width() == old(self).bus_width(),
            final(self).reads_busy_flag() == old(self).reads_busy_flag(),
    {
        self.wait_ready(DEFAULT_WAIT_US)
    }

    /// Sends one instruction and waits for it.
    fn command(&mut self, cmd: u8) -> (reads: Ghost<Seq<u8>>)
        ensures
            ready_reads(old(self).bus_width(), old(self).reads_busy_flag(), reads@),
            final(self).trace() == old(self).trace() + instruction(
                old(self).bus_width(),
                old(self).reads_busy_flag(),
                cmd,
                reads@,
            ),
            final(self).bus_width() == old(self).bus_width(),
            final(self).reads_busy_flag() == old(self).reads_busy_flag(),
    {
        self.hw.rs(false);
        self.hw.apply();
        // tAS
        self.hw.wait_address();
        self.send(cmd);
        let reads = self.wait_ready_default();
        assert(self.trace() =~= old(self).trace() + instruction(
            old(self).bus_width(),
            old(self).reads_busy_flag(),
            cmd,
            reads@,
        ));
        reads
    }

    /// Initializes the controller from any power-on state: the datasheet's
    /// start sequence for the device's bus width, then the function set for
    /// `line` and `dots`, then the equivalent of
    /// `display(DisplayOff, CursorOff, BlinkOff)`, `clear()` and
    /// `entry_mode(EntryRight, NoShift)`.
    #[verifier::rlimit(40)]
    pub fn init(&mut self, line: FunctionLine, dots: FunctionDots)
        ensures
            final(self).bus_width() == old(self).bus_width(),
            final(self).reads_busy_flag() == old(self).reads_busy_flag(),
            exists|waits: Seq<Seq<u8>>|
                waits.len() == bootstrap_waits(old(self).bus_width()) + 5 && ready_waits(
                    old(self).bus_width(),
                    old(self).reads_busy_flag(),
                    waits,
                ) && final(self).trace() == old(self).trace() + #[trigger] initialization(
                    old(self).bus_width(),
                    old(self).reads_busy_flag(),
                    line,
                    dots,
                    waits,
                ),
    {
        let ghost polls = self.reads_busy_flag();
        let mode = self.hw.mode();
        self.hw.rs(false);
        self.hw.apply();
        self.hw.wait_address();
        let ghost mut boot: Seq<Seq<u8>> = Seq::empty();
        match mode {
            FunctionMode::Bit8 => {
                // Function set for an 8-bit bus, 2 lines, 5x10 font, sent three times
                self.send_data(
                    Command::FunctionSet.bits() | FunctionMode::Bit8.bits() | FunctionLine::Line2.bits()
                        | FunctionDots::Dots5x10.bits(),
                );
                // Wait for more than 4.1ms
                self.hw.delay_us(4500);
                // Repeat for the second time
                self.pulse_enable();
                // Wait for more than 100us
                self.hw.delay_us(150);
                // Repeat for the third time
                self.pulse_enable();
                let first = self.wait_ready_default();
                proof {
                    boot = seq![first@];
                    assert(self.trace() =~= old(self).trace() + bootstrap(mode, polls, boot));
                }
            },
            FunctionMode::Bit4 => {
                // Only the high nibble reaches the controller until it is switched to 4-bit
                self.send_data((Command::FunctionSet.bits() | FunctionMode::Bit8.bits()) >> 4);
                // Wait for more than 4.1ms
                self.hw.delay_us(4500);
                // Repeat for the second time
                self.pulse_enable();
                // Wait for more than 100us
                self.hw.delay_us(150);
                // Repeat for the third time
                self.pulse_enable();
                let first = self.wait_ready_default();
                // Now switch to 4-bit transfers
                self.send_data((Command::FunctionSet.bits() | FunctionMode::Bit4.bits()) >> 4);
                let second = self.wait_ready_default();
                proof {
                    boot = seq![first@, second@];
                    assert(self.trace() =~= old(self).trace() + bootstrap(mode, polls, boot));
                }
            },
        }
        // Finally, set the number of lines and the font size
        let set = self.command(Command::FunctionSet.bits() | mode.bits() | line.bits() | dots.bits());
        let ghost t2 = self.trace();
        // From here on the display is initialized
        self.display(DisplayMode::DisplayOff, DisplayCursor::CursorOff, DisplayBlink::BlinkOff);
        let ghost off = choose|reads: Seq<u8>|
            ready_reads(mode, polls, reads) && self.trace() == t2 + #[trigger] instruction(
                mode,
                polls,
                display_control_byte(DisplayMode::DisplayOff, DisplayCursor::CursorOff, DisplayBlink::BlinkOff),
                reads,
            );
        let ghost t3 = self.trace();
        self.clear();
        let ghost cleared = choose|waits: Seq<Seq<u8>>|
            waits.len() == 2 && ready_waits(mode, polls, waits) && self.trace() == t3
                + #[trigger] long_instruction(mode, polls, Command::ClearDisplay.bits(), waits);
        let ghost t4 = self.trace();
        self.entry_mode(EntryModeDirection::EntryRight, EntryModeShift::NoShift);
        let ghost entry = choose|reads: Seq<u8>|
            ready_reads(mode, polls, reads) && self.trace() == t4 + #[trigger] instruction(
                mode,
                polls,
                entry_mode_byte(EntryModeDirection::EntryRight, EntryModeShift::NoShift),
                reads,
            );
        proof {
            let n = bootstrap_waits(mode);
            let waits = boot + seq![set@, off, cleared[0], cleared[1], entry];
            assert(waits.take(n) =~= boot);
            assert(waits.subrange(n + 2, n + 4) =~= cleared);
            assert(waits[n] == set@ && waits[n + 1] == off && waits[n + 4] == entry);
            assert forall|i: int| 0 <= i < waits.len() implies ready_reads(mode, polls, #[trigger] waits[i]) by {
                if i < n {
                    assert(waits[i] == boot[i]);
                } else if i == n + 2 || i == n + 3 {
                    assert(waits[i] == cleared[i - n - 2]);
                }
            }
            assert(self.trace() =~= old(self).trace() + initialization(mode, polls, line, dots, waits));
        }
    }

    /// Clears the display and returns the cursor to the home position (address 0).
    pub fn clear(&mut self) -> (r: &Self)
        ensures
            *r == *final(self),
            final(self).bus_width() == old(self).bus_width(),
            final(self).reads_busy_flag() == old(self).reads_busy_flag(),
            exists|waits: Seq<Seq<u8>>|
                waits.len() == 2 && ready_waits(old(self).bus_width(), old(self).reads_busy_flag(), waits)
                    && final(self).trace() == old(self).trace() + #[trigger] long_instruction(
                    old(self).bus_width(),
                    old(self).reads_busy_flag(),
                    Command::ClearDisplay.bits(),
                    waits,
                ),
    {
        let first = self.command(Command::ClearDisplay.bits());
        // This instruction can take as long as 1.52ms
        let second = self.wait_ready(LONG_WAIT_US);
        proof {
            let waits = seq![first@, second@];
            assert(ready_reads(old(self).bus_width(), old(self).reads_busy_flag(), waits[0]));
            assert(ready_reads(old(self).bus_width(), old(self).reads_busy_flag(), waits[1]));
            assert(self.trace() =~= old(self).trace() + long_instruction(
                old(self).bus_width(),
                old(self).reads_busy_flag(),
                Command::ClearDisplay.bits(),
                waits,
            ));
        }
        self
    }

    /// Returns the cursor to the home position and undoes any display
    /// shift. DDRAM content remains unchanged.
    pub fn home(&mut self) -> (r: &Self)
        ensures
            *r == *final(self),
            final(self).bus_width() == old(self).bus_width(),
            final(self).reads_busy_flag() == old(self).reads_busy_flag(),
            exists|waits: Seq<Seq<u8>>|
                waits.len() == 2 && ready_waits(old(self).bus_width(), old(self).reads_busy_flag(), waits)
                    && final(self).trace() == old(self).trace() + #[trigger] long_instruction(
                    old(self).bus_width(),
                    old(self).reads_busy_flag(),
                    Command::ReturnHome.bits(),
                    waits,
                ),
    {
        let first = self.command(Command::ReturnHome.bits());
        // This instruction can take as long as 1.52ms
        let second = self.wait_ready(LONG_WAIT_US);
        proof {
            let waits = seq![first@, second@];
            assert(ready_reads(old(self).bus_width(), old(self).reads_busy_flag(), waits[0]));
            assert(ready_reads(old(self).bus_width(), old(self).reads_busy_flag(), waits[1]));
            assert(self.trace() =~= old(self).trace() + long_instruction(
                old(self).bus_width(),
                old(self).reads_busy_flag(),
                Command::ReturnHome.bits(),
                waits,
            ));
        }
        self
    }

    /// Sets the cursor move direction (`dir`) and whether the display shifts
    /// (`scroll`) on each data write.
    pub fn entry_mode(&mut self, dir: EntryModeDirection, scroll: EntryModeShift) -> (r: &Self)
        ensures
            *r == *final(self),
            final(self).bus_width() == old(self).bus_width(),
            final(self).reads_busy_flag() == old(self).reads_busy_flag(),
            exists|reads: Seq<u8>|
                ready_reads(old(self).bus_width(), old(self).reads_busy_flag(), reads)
                    && final(self).trace() == old(self).trace() + #[trigger] instruction(
                    old(self).bus_width(),
                    old(self).reads_busy_flag(),
                    entry_mode_byte(dir, scroll),
                    reads,
                ),
    {
        let reads = self.command(Command::EntryModeSet.bits() | dir.bits() | scroll.bits());
        assert(self.trace() == old(self).trace() + instruction(
            old(self).bus_width(),
            old(self).reads_busy_flag(),
            entry_mode_byte(dir, scroll),
            reads@,
        ));
        self
    }

    /// Sets the whole display (`display`), the cursor (`cursor`) and the
    /// blinking of the cursor position character (`blink`) on or off.
    pub fn display(&mut self, display: DisplayMode, cursor: DisplayCursor, blink: DisplayBlink) -> (r: &Self)
        ensures
            *r == *final(self),
            final(self).bus_width() == old(self).bus_width(),
            final(self).reads_busy_flag() == old(self).reads_busy_flag(),
            exists|reads: Seq<u8>|
                ready_reads(old(self).bus_width(), old(self).reads_busy_flag(), reads)
                    && final(self).trace() == old(self).trace() + #[trigger] instruction(
                    old(self).bus_width(),
                    old(self).reads_busy_flag(),
                    display_control_byte(display, cursor, blink),
                    reads,
                ),
    {
        let reads = self.command(
            Command::DisplayControl.bits() | display.bits() | cursor.bits() | blink.bits(),
        );
        assert(self.trace() == old(self).trace() + instruction(
            old(self).bus_width(),
            old(self).reads_busy_flag(),
            display_control_byte(display, cursor, blink),
            reads@,
        ));
        self
    }

    /// Shifts the display in direction `dir`. DDRAM content remains unchanged.
    pub fn scroll(&mut self, dir: Direction) -> (r: &Self)
        ensures
            *r == *final(self),
            final(self).bus_width() == old(self).bus_width(),
            final(self).reads_busy_flag() == old(self).reads_busy_flag(),
            exists|reads: Seq<u8>|
                ready_reads(old(self).bus_width(), old(self).reads_busy_flag(), reads)
                    && final(self).trace() == old(self).trace() + #[trigger] instruction(
                    old(self).bus_width(),
                    old(self).reads_busy_flag(),
                    shift_byte(Scroll::DisplayMove, dir),
                    reads,
                ),
    {
        let reads = self.command(Command::CursorShift.bits() | Scroll::DisplayMove.bits() | dir.bits());
        assert(self.trace() == old(self).trace() + instruction(
            old(self).bus_width(),
            old(self).reads_busy_flag(),
            shift_byte(Scroll::DisplayMove, dir),
            reads@,
        ));
        self
    }

    /// Moves the cursor in direction `dir`. DDRAM content remains unchanged.
    pub fn cursor(&mut self, dir: Direction) -> (r: &Self)
        ensures
            *r == *final(self),
            final(self).bus_width() == old(self).bus_width(),
            final(self).reads_busy_flag() == old(self).reads_busy_flag(),
            exists|reads: Seq<u8>|
                ready_reads(old(self).bus_width(), old(self).reads_busy_flag(), reads)
                    && final(self).trace() == old(self).trace() + #[trigger] instruction(
                    old(self).bus_width(),
                    old(self).reads_busy_flag(),
                    shift_byte(Scroll::CursorMove, dir),
                    reads,
                ),
    {
        let reads = self.command(Command::CursorShift.bits() | Scroll::CursorMove.bits() | dir.bits());
        assert(self.trace() == old(self).trace() + instruction(
            old(self).bus_width(),
            old(self).reads_busy_flag(),
            shift_byte(Scroll::CursorMove, dir),
            reads@,
        ));
        self
    }

    /// Sets the cursor position to column `col` of row `row`.
    pub fn position(&mut self, col: u8, row: u8)
        requires
            col + row_offset(row) <= u8::MAX,
        ensures
            final(self).bus_width() == old(self).bus_width(),
            final(self).reads_busy_flag() == old(self).reads_busy_flag(),
            exists|reads: Seq<u8>|
                ready_reads(old(self).bus_width(), old(self).reads_busy_flag(), reads)
                    && final(self).trace() == old(self).trace() + #[trigger] instruction(
                    old(self).bus_width(),
                    old(self).reads_busy_flag(),
                    position_byte(col, row),
                    reads,
                ),
    {
        let offset: u8 = match row {
            1 => 0x40,
            2 => 0x14,
            3 => 0x54,
            _ => 0,
        };
        assert(offset == row_offset(row));
        let reads = self.command(Command::SetDDRamAddr.bits() | (col + offset));
        assert(self.trace() == old(self).trace() + instruction(
            old(self).bus_width(),
            old(self).reads_busy_flag(),
            position_byte(col, row),
            reads@,
        ));
    }

    /// Writes one byte (`data`) as a character at the cursor.
    pub fn write(&mut self, data: u8) -> (r: &Self)
        ensures
            *r == *final(self),
            final(self).bus_width() == old(self).bus_width(),
            final(self).reads_busy_flag() == old(self).reads_busy_flag(),
            exists|reads: Seq<u8>|
                ready_reads(old(self).bus_width(), old(self).reads_busy_flag(), reads)
                    && final(self).trace() == old(self).trace() + #[trigger] data_write(
                    old(self).bus_width(),
                    old(self).reads_busy_flag(),
                    data,
                    reads,
                ),
    {
        let reads = self.write_data(data);
        self
    }

    fn write_data(&mut self, data: u8) -> (reads: Ghost<Seq<u8>>)
        ensures
            ready_reads(old(self).bus_width(), old(self).reads_busy_flag(), reads@),
            final(self).trace() == old(self).trace() + data_write(
                old(self).bus_width(),
                old(self).reads_busy_flag(),
                data,
                reads@,
            ),
            final(self).bus_width() == old(self).bus_width(),
            final(self).reads_busy_flag() == old(self).reads_busy_flag(),
    {
        self.hw.rs(true);
        self.hw.apply();
        // tAS
        self.hw.wait_address();
        self.send(data);
        let reads = self.wait_ready_default();
        // It takes 4us more (tADD) to update the address counter
        self.hw.delay_us(DATA_WRITE_US);
        assert(self.trace() =~= old(self).trace() + data_write(
            old(self).bus_width(),
            old(self).reads_busy_flag(),
            data,
            reads@,
        ));
        reads
    }

    /// Writes `bytes` as characters, in order; `start` is the trace before
    /// the first write.
    fn write_all(&mut self, bytes: &[u8], Ghost(start): Ghost<Seq<Signal>>) -> (waits: Ghost<Seq<Seq<u8>>>)
        requires
            old(self).trace() == start,
        ensures
            waits@.len() == bytes@.len(),
            ready_waits(old(self).bus_width(), old(self).reads_busy_flag(), waits@),
            final(self).trace() == start + data_writes(
                old(self).bus_width(),
                old(self).reads_busy_flag(),
                bytes@,
                waits@,
            ),
            final(self).bus_width() == old(self).bus_width(),
            final(self).reads_busy_flag() == old(self).reads_busy_flag(),
    {
        let ghost mode = self.bus_width();
        let ghost polls = self.reads_busy_flag();
        let ghost mut waits: Seq<Seq<u8>> = Seq::empty();
        let mut i: usize = 0;
        proof {
            assert(bytes@.take(0) =~= Seq::<u8>::empty());
            assert(start + data_writes(mode, polls, bytes@.take(0), waits) =~= start);
        }
        while i < bytes.len()
            invariant
                i <= bytes@.len(),
                waits.len() == i,
                ready_waits(mode, polls, waits),
                self.trace() == start + data_writes(mode, polls, bytes@.take(i as int), waits),
                self.bus_width() == mode,
                self.reads_busy_flag() == polls,
            decreases bytes@.len() - i,
        {
            let reads = self.write_data(bytes[i]);
            proof {
                let next = waits.push(reads@);
                assert(bytes@.take(i + 1).drop_last() =~= bytes@.take(i as int));
                assert(bytes@.take(i + 1).last() == bytes@[i as int]);
                assert(next.drop_last() =~= waits);
                assert forall|j: int| 0 <= j < next.len() implies ready_reads(mode, polls, #[trigger] next[j]) by {
                    if j < waits.len() {
                        assert(next[j] == waits[j]);
                    }
                }
                assert(self.trace() =~= start + data_writes(mode, polls, bytes@.take(i + 1), next));
                waits = next;
            }
            i = i + 1;
        }
        assert(bytes@.take(i as int) =~= bytes@);
        Ghost(waits)
    }

    /// Prints the bytes of `s` as characters, one data write each, left to right.
    pub fn print(&mut self, s: &str) -> (r: &Self)
        ensures
            *r == *final(self),
            final(self).bus_width() == old(self).bus_width(),
            final(self).reads_busy_flag() == old(self).reads_busy_flag(),
            exists|waits: Seq<Seq<u8>>|
                waits.len() == s.spec_bytes().len() && ready_waits(
                    old(self).bus_width(),
                    old(self).reads_busy_flag(),
                    waits,
                ) && final(self).trace() == old(self).trace() + #[trigger] data_writes(
                    old(self).bus_width(),
                    old(self).reads_busy_flag(),
                    s.spec_bytes(),
                    waits,
                ),
    {
        let waits = self.write_all(s.as_bytes(), Ghost(self.trace()));
        self
    }

    /// Uploads the image of a custom character into slot `location` (0 to 7).
    /// Each of the 8 bytes of `map` is one row, top first; only its lowest 5
    /// bits (the columns) are shown.
    pub fn upload_character(&mut self, location: u8, map: [u8; 8]) -> (r: &Self)
        requires
            location <= 7,
        ensures
            *r == *final(self),
            final(self).bus_width() == old(self).bus_width(),
            final(self).reads_busy_flag() == old(self).reads_busy_flag(),
            exists|reads: Seq<u8>, waits: Seq<Seq<u8>>|
                ready_reads(old(self).bus_width(), old(self).reads_busy_flag(), reads) && waits.len() == 8
                    && ready_waits(old(self).bus_width(), old(self).reads_busy_flag(), waits)
                    && final(self).trace() == old(self).trace() + #[trigger] instruction(
                    old(self).bus_width(),
                    old(self).reads_busy_flag(),
                    cgram_byte(location),
                    reads,
                ) + #[trigger] data_writes(old(self).bus_width(), old(self).reads_busy_flag(), map@, waits),
    {
        // Only 8 locations are available
        let reads = self.command(Command::SetCGRamAddr.bits() | ((location & 0x7) << 3));
        let waits = self.write_all(&map, Ghost(self.trace()));
        assert(self.trace() == old(self).trace() + instruction(
            old(self).bus_width(),
            old(self).reads_busy_flag(),
            cgram_byte(location),
            reads@,
        ) + data_writes(old(self).bus_width(), old(self).reads_busy_flag(), map@, waits@));
        self
    }
}

} // verus!
