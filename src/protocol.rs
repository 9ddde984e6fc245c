//! The bus protocol as sequences of [`Signal`]s: how one byte is framed, how
//! the driver waits for the controller, and what each display operation
//! drives onto the device.
//!
//! Readiness is either polled through the busy flag or waited out with a
//! fixed delay. When it is polled, the signals depend on the values that the
//! device answered; those values are the `reads` parameters below, and they
//! appear in the signals themselves as [`Signal::Read`].

use crate::command::{
    display_control_byte, entry_mode_byte, function_set_byte, Command, DisplayBlink, DisplayCursor,
    DisplayMode, EntryModeDirection, EntryModeShift, FunctionDots, FunctionLine, FunctionMode,
};
use crate::hardware::Signal;
use vstd::prelude::*;

verus! {

/// Longest run of busy-flag polls in one wait. The controller clears its
/// busy flag within microseconds; the bound only guards against a device
/// that never answers, which would otherwise hold the caller forever.
pub const POLL_LIMIT: u64 = 0xFFFF_FFFF_FFFF_FFFF;

/// Wait for an ordinary instruction, in microseconds (37us plus margin).
pub const DEFAULT_WAIT_US: u32 = 50;

/// Wait for clear and home, in microseconds (1.52ms plus margin).
pub const LONG_WAIT_US: u32 = 2000;

/// Address counter update time after a data write (tADD), in microseconds.
pub const DATA_WRITE_US: u32 = 5;

/// One strobe of the enable line, held high for at least 450ns.
pub open spec fn pulse() -> Seq<Signal> {
    seq![Signal::Enable(true), Signal::Apply, Signal::Delay(1), Signal::Enable(false), Signal::Apply]
}

/// One transfer on the bus: the value on the data lines, then a strobe.
pub open spec fn nibble(value: u8) -> Seq<Signal> {
    seq![Signal::Data(value), Signal::Apply] + pulse()
}

/// One byte on a bus of the given width: the whole byte on an 8-bit bus, the
/// high then the low nibble on a 4-bit bus.
pub open spec fn transfer(mode: FunctionMode, byte: u8) -> Seq<Signal> {
    match mode {
        FunctionMode::Bit8 => nibble(byte),
        FunctionMode::Bit4 => nibble(byte >> 4) + nibble(byte & 0xf),
    }
}

/// One read of the data lines, framed by the enable strobe.
pub open spec fn receive(value: u8) -> Seq<Signal> {
    seq![
        Signal::Enable(true),
        Signal::Apply,
        Signal::Delay(1),
        Signal::Read(value),
        Signal::Delay(1),
        Signal::Enable(false),
        Signal::Apply,
    ]
}

/// Successive reads of the data lines.
pub open spec fn receives(reads: Seq<u8>) -> Seq<Signal>
    decreases reads.len(),
{
    if reads.len() == 0 {
        Seq::empty()
    } else {
        receives(reads.drop_last()) + receive(reads.last())
    }
}

/// Reads of the data lines that make one status read: one on an 8-bit bus,
/// two (high nibble first) on a 4-bit bus.
pub open spec fn reads_per_poll(mode: FunctionMode) -> int {
    match mode {
        FunctionMode::Bit8 => 1,
        FunctionMode::Bit4 => 2,
    }
}

/// Number of status reads that `reads` holds.
pub open spec fn poll_count(mode: FunctionMode, reads: Seq<u8>) -> int {
    reads.len() as int / reads_per_poll(mode)
}

/// The status byte of the `j`-th status read in `reads`.
pub open spec fn status(mode: FunctionMode, reads: Seq<u8>, j: int) -> u8 {
    match mode {
        FunctionMode::Bit8 => reads[j],
        FunctionMode::Bit4 => (reads[2 * j] << 4u8) | (reads[2 * j + 1] & 0xf),
    }
}

/// The busy flag is the most significant bit of the status byte.
pub open spec fn is_busy(status: u8) -> bool {
    status & 0x80 != 0
}

/// `reads` is what one busy-flag wait read: whole status reads, every one
/// busy but the last, which is clear unless the poll bound was reached.
pub open spec fn polled(mode: FunctionMode, reads: Seq<u8>) -> bool {
    &&& reads.len() as int % reads_per_poll(mode) == 0
    &&& 1 <= poll_count(mode, reads) <= POLL_LIMIT
    &&& forall|j: int| 0 <= j < poll_count(mode, reads) - 1 ==> is_busy(#[trigger] status(mode, reads, j))
    &&& !is_busy(status(mode, reads, poll_count(mode, reads) - 1)) || poll_count(mode, reads) == POLL_LIMIT
}

/// `reads` is what one readiness wait can read: a busy-flag wait's reads when
/// the flag is polled, nothing otherwise.
pub open spec fn ready_reads(mode: FunctionMode, polls: bool, reads: Seq<u8>) -> bool {
    if polls {
        polled(mode, reads)
    } else {
        reads.len() == 0
    }
}

/// Readiness wait after an instruction. With the busy flag: select the
/// status register, switch to reading, read status until it is clear, switch
/// back to writing. Without it: one delay of `delay` microseconds.
pub open spec fn wait_ready(mode: FunctionMode, polls: bool, delay: u32, reads: Seq<u8>) -> Seq<Signal> {
    if polls {
        seq![Signal::Rs(false), Signal::Rw(true), Signal::Apply, Signal::WaitAddress] + receives(reads)
            + seq![Signal::Rw(false), Signal::Apply]
    } else {
        seq![Signal::Delay(delay)]
    }
}

/// Each of `waits` is what one readiness wait can read.
pub open spec fn ready_waits(mode: FunctionMode, polls: bool, waits: Seq<Seq<u8>>) -> bool {
    forall|i: int| 0 <= i < waits.len() ==> ready_reads(mode, polls, #[trigger] waits[i])
}

/// An instruction: register-select low, the byte, the default wait.
pub open spec fn instruction(mode: FunctionMode, polls: bool, byte: u8, reads: Seq<u8>) -> Seq<Signal> {
    seq![Signal::Rs(false), Signal::Apply, Signal::WaitAddress] + transfer(mode, byte) + wait_ready(mode, polls, DEFAULT_WAIT_US, reads)
}

/// A data write: register-select high, the byte, the default wait, then the
/// address counter update time.
pub open spec fn data_write(mode: FunctionMode, polls: bool, byte: u8, reads: Seq<u8>) -> Seq<Signal> {
    seq![Signal::Rs(true), Signal::Apply, Signal::WaitAddress] + transfer(mode, byte) + wait_ready(mode, polls, DEFAULT_WAIT_US, reads)
        + seq![Signal::Delay(DATA_WRITE_US)]
}

/// Data writes of `bytes` in order, the `i`-th wait reading `waits[i]`.
pub open spec fn data_writes(mode: FunctionMode, polls: bool, bytes: Seq<u8>, waits: Seq<Seq<u8>>) -> Seq<Signal>
    decreases bytes.len(),
{
    if bytes.len() == 0 {
        Seq::empty()
    } else {
        data_writes(mode, polls, bytes.drop_last(), waits.drop_last()) + data_write(
            mode,
            polls,
            bytes.last(),
            waits.last(),
        )
    }
}

/// An instruction that takes long (clear, home): the instruction, then the
/// long wait on top of the default one.
pub open spec fn long_instruction(mode: FunctionMode, polls: bool, byte: u8, waits: Seq<Seq<u8>>) -> Seq<Signal> {
    instruction(mode, polls, byte, waits[0]) + wait_ready(mode, polls, LONG_WAIT_US, waits[1])
}

/// The power-on start of the initialization: the function-set instruction
/// for an 8-bit bus three times, with the datasheet's waits, and on a 4-bit
/// bus the switch to 4-bit transfers. The controller samples only the high
/// nibble on a 4-bit bus here, so each instruction is one transfer.
pub open spec fn bootstrap(mode: FunctionMode, polls: bool, waits: Seq<Seq<u8>>) -> Seq<Signal> {
    let start = match mode {
        FunctionMode::Bit8 => nibble(function_set_byte(FunctionMode::Bit8, FunctionLine::Line2, FunctionDots::Dots5x10)),
        FunctionMode::Bit4 => nibble((Command::FunctionSet.bits() | FunctionMode::Bit8.bits()) >> 4),
    };
    let repeated = seq![Signal::Rs(false), Signal::Apply, Signal::WaitAddress] + start + seq![Signal::Delay(4500)] + pulse()
        + seq![Signal::Delay(150)] + pulse() + wait_ready(mode, polls, DEFAULT_WAIT_US, waits[0]);
    match mode {
        FunctionMode::Bit8 => repeated,
        FunctionMode::Bit4 => repeated + nibble((Command::FunctionSet.bits() | FunctionMode::Bit4.bits()) >> 4)
            + wait_ready(mode, polls, DEFAULT_WAIT_US, waits[1]),
    }
}

/// Number of readiness waits in the bootstrap.
pub open spec fn bootstrap_waits(mode: FunctionMode) -> int {
    match mode {
        FunctionMode::Bit8 => 1,
        FunctionMode::Bit4 => 2,
    }
}

/// The whole initialization: the bootstrap, then the function set for the
/// requested lines and font, display off, clear, and entry mode to the right
/// without shift. `waits` holds the bootstrap's waits, then five more.
pub open spec fn initialization(
    mode: FunctionMode,
    polls: bool,
    line: FunctionLine,
    dots: FunctionDots,
    waits: Seq<Seq<u8>>,
) -> Seq<Signal> {
    let n = bootstrap_waits(mode);
    bootstrap(mode, polls, waits.take(n))
        + instruction(mode, polls, function_set_byte(mode, line, dots), waits[n])
        + instruction(
            mode,
            polls,
            display_control_byte(DisplayMode::DisplayOff, DisplayCursor::CursorOff, DisplayBlink::BlinkOff),
            waits[n + 1],
        )
        + long_instruction(mode, polls, Command::ClearDisplay.bits(), waits.subrange(n + 2, n + 4))
        + instruction(mode, polls, entry_mode_byte(EntryModeDirection::EntryRight, EntryModeShift::NoShift), waits[n + 4])
}

/// A byte goes out as one strobed transfer of the whole byte on an 8-bit
/// bus, and as two on a 4-bit bus: the high nibble, then the low one.
pub proof fn lemma_transfer_pulses(mode: FunctionMode, byte: u8)
    ensures
        mode == FunctionMode::Bit8 ==> transfer(mode, byte) == seq![
            Signal::Data(byte),
            Signal::Apply,
            Signal::Enable(true),
            Signal::Apply,
            Signal::Delay(1),
            Signal::Enable(false),
            Signal::Apply,
        ],
        mode == FunctionMode::Bit4 ==> transfer(mode, byte) == seq![
            Signal::Data(byte >> 4),
            Signal::Apply,
            Signal::Enable(true),
            Signal::Apply,
            Signal::Delay(1),
            Signal::Enable(false),
            Signal::Apply,
            Signal::Data(byte & 0xf),
            Signal::Apply,
            Signal::Enable(true),
            Signal::Apply,
            Signal::Delay(1),
            Signal::Enable(false),
            Signal::Apply,
        ],
        mode == FunctionMode::Bit4 ==> (byte >> 4) < 16 && (byte & 0xf) < 16 && (byte >> 4) * 16 + (
        byte & 0xf) == byte,
{
    assert(transfer(FunctionMode::Bit8, byte) =~= seq![
        Signal::Data(byte),
        Signal::Apply,
        Signal::Enable(true),
        Signal::Apply,
        Signal::Delay(1),
        Signal::Enable(false),
        Signal::Apply,
    ]);
    assert(transfer(FunctionMode::Bit4, byte) =~= seq![
        Signal::Data(byte >> 4),
        Signal::Apply,
        Signal::Enable(true),
        Signal::Apply,
        Signal::Delay(1),
        Signal::Enable(false),
        Signal::Apply,
        Signal::Data(byte & 0xf),
        Signal::Apply,
        Signal::Enable(true),
        Signal::Apply,
        Signal::Delay(1),
        Signal::Enable(false),
        Signal::Apply,
    ]);
    assert((byte >> 4) < 16 && (byte & 0xf) < 16 && (byte >> 4) * 16 + (byte & 0xf) == byte)
        by (bit_vector);
}

/// A single read is received on its own.
pub proof fn lemma_receives_one(value: u8)
    ensures
        receives(seq![value]) == receive(value),
{
    let reads = seq![value];
    assert(reads.drop_last() =~= Seq::<u8>::empty());
    assert(receives(reads.drop_last()) =~= Seq::<Signal>::empty());
    assert(receives(reads) =~= receive(value));
}

/// Reads in sequence are received in sequence.
pub proof fn lemma_receives_append(a: Seq<u8>, b: Seq<u8>)
    ensures
        receives(a + b) == receives(a) + receives(b),
    decreases b.len(),
{
    if b.len() == 0 {
        assert(a + b =~= a);
        assert(receives(b) =~= Seq::<Signal>::empty());
        assert(receives(a) + receives(b) =~= receives(a));
    } else {
        lemma_receives_append(a, b.drop_last());
        assert((a + b).drop_last() =~= a + b.drop_last());
        assert((a + b).last() == b.last());
        assert(receives(a + b) =~= receives(a) + receives(b));
    }
}

/// A busy-flag wait whose device answers busy `n` times and then clear makes
/// exactly `n + 1` status reads, between switching to reading and switching
/// back to writing.
pub proof fn lemma_busy_polls(mode: FunctionMode, delay: u32, reads: Seq<u8>, n: int)
    requires
        polled(mode, reads),
        0 <= n < POLL_LIMIT,
        forall|j: int| 0 <= j < n && j < poll_count(mode, reads) ==> is_busy(#[trigger] status(mode, reads, j)),
        n < poll_count(mode, reads) ==> !is_busy(status(mode, reads, n)),
    ensures
        poll_count(mode, reads) == n + 1,
        reads.len() == (n + 1) * reads_per_poll(mode),
        wait_ready(mode, true, delay, reads).take(4) == seq![
            Signal::Rs(false),
            Signal::Rw(true),
            Signal::Apply,
            Signal::WaitAddress,
        ],
        wait_ready(mode, true, delay, reads).skip(wait_ready(mode, true, delay, reads).len() - 2)
            == seq![Signal::Rw(false), Signal::Apply],
{
    let k = poll_count(mode, reads);
    if k <= n {
        assert(is_busy(status(mode, reads, k - 1)));
    } else if n < k - 1 {
        assert(is_busy(status(mode, reads, n)));
    }
    assert(reads.len() == (n + 1) * reads_per_poll(mode)) by (nonlinear_arith)
        requires
            poll_count(mode, reads) == n + 1,
            reads.len() as int % reads_per_poll(mode) == 0,
            poll_count(mode, reads) == reads.len() as int / reads_per_poll(mode),
            reads_per_poll(mode) == 1 || reads_per_poll(mode) == 2,
    ;
    let w = wait_ready(mode, true, delay, reads);
    assert(w.take(4) =~= seq![Signal::Rs(false), Signal::Rw(true), Signal::Apply, Signal::WaitAddress]);
    assert(w.skip(w.len() - 2) =~= seq![Signal::Rw(false), Signal::Apply]);
}

/// Clearing carries no state from one call to the next: without the busy
/// flag, every clear drives the same signals.
pub proof fn lemma_clear_repeats(mode: FunctionMode, t0: Seq<Signal>, t1: Seq<Signal>, t2: Seq<Signal>)
    requires
        exists|w: Seq<Seq<u8>>|
            w.len() == 2 && ready_waits(mode, false, w) && t1 == t0 + #[trigger] long_instruction(
                mode,
                false,
                Command::ClearDisplay.bits(),
                w,
            ),
        exists|w: Seq<Seq<u8>>|
            w.len() == 2 && ready_waits(mode, false, w) && t2 == t1 + #[trigger] long_instruction(
                mode,
                false,
                Command::ClearDisplay.bits(),
                w,
            ),
    ensures
        t1.skip(t0.len() as int) == t2.skip(t1.len() as int),
{
    let w1 = choose|w: Seq<Seq<u8>>|
        w.len() == 2 && ready_waits(mode, false, w) && t1 == t0 + #[trigger] long_instruction(
            mode,
            false,
            Command::ClearDisplay.bits(),
            w,
        );
    let w2 = choose|w: Seq<Seq<u8>>|
        w.len() == 2 && ready_waits(mode, false, w) && t2 == t1 + #[trigger] long_instruction(
            mode,
            false,
            Command::ClearDisplay.bits(),
            w,
        );
    assert(ready_reads(mode, false, w1[0]) && ready_reads(mode, false, w1[1]));
    assert(ready_reads(mode, false, w2[0]) && ready_reads(mode, false, w2[1]));
    assert(t1.skip(t0.len() as int) =~= long_instruction(mode, false, Command::ClearDisplay.bits(), w1));
    assert(t2.skip(t1.len() as int) =~= long_instruction(mode, false, Command::ClearDisplay.bits(), w2));
}

} // verus!
