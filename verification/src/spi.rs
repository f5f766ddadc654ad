//! A register-level model of the QSPI peripheral.
//!
//! The real peripheral is a memory-mapped register block: a transmit
//! register (with a "fifo full" flag), a receive register (bit 31 set
//! while the fifo is empty, low 8 bits the received byte), a chip-select
//! mode register (hold / auto), and a flash-control register whose enable
//! bit switches the controller into memory-mapped read mode.
//!
//! `SpiBus` models what a driver can observe of that block: the ordered
//! log of bytes clocked out and chip-select transitions, the current
//! chip-select mode, the memory-mapped-flash enable bit, and a script of
//! the bytes the attached flash chip answers with, one per transfer.

use vstd::prelude::*;

verus! {

/// One observable action on the SPI bus, in the order the driver issued it.
#[derive(Clone, Copy, Debug, PartialEq, Eq, Structural)]
pub enum SpiEvent {
    /// A byte written to the transmit register (one full-duplex transfer).
    Byte(u8),
    /// Chip-select forced low across transfers (hold mode).
    Hold,
    /// Chip-select released to per-transfer framing (auto mode).
    Auto,
}

/// The peripheral model: the state a driver can read or change, plus the
/// script of bytes the flash chip will answer with.
pub struct SpiBus {
    /// Everything the driver has done to the bus, in order.
    pub log: Vec<SpiEvent>,
    /// `responses[k]` is the byte received by the `k`-th transfer.
    pub responses: Vec<u8>,
    /// How many responses have been consumed (= transfers issued so far).
    pub taken: usize,
    /// True while chip-select is forced low (hold mode).
    pub cs_hold: bool,
    /// True while the controller's memory-mapped flash-read mode is enabled.
    pub mmap_enabled: bool,
}

/// How many `Byte` events (transfers) a log holds.
pub open spec fn sent_count(log: Seq<SpiEvent>) -> int
    decreases log.len(),
{
    if log.len() == 0 {
        0
    } else {
        sent_count(log.drop_last()) + if log.last() is Byte { 1int } else { 0int }
    }
}

impl SpiBus {
    /// The response cursor agrees with the number of transfers logged,
    /// and never runs past the script.
    pub open spec fn wf(self) -> bool {
        &&& self.taken as int == sent_count(self.log@)
        &&& self.taken <= self.responses@.len()
    }

    /// A fresh bus: nothing sent, chip-select in auto mode, and the
    /// controller still in its power-on memory-mapped read mode.
    pub fn new(responses: Vec<u8>) -> (bus: SpiBus)
        ensures
            bus.wf(),
            bus.log@ == Seq::<SpiEvent>::empty(),
            bus.responses == responses,
            bus.taken == 0,
            !bus.cs_hold,
            bus.mmap_enabled,
    {
        SpiBus {
            log: Vec::new(),
            responses,
            taken: 0,
            cs_hold: false,
            mmap_enabled: true,
        }
    }
}

/// Appending an event to a log extends its transfer count by one exactly
/// when the event is a `Byte`.
proof fn lemma_sent_count_push(log: Seq<SpiEvent>, ev: SpiEvent)
    ensures
        sent_count(log.push(ev)) == sent_count(log) + if ev is Byte { 1int } else { 0int },
{
    assert(log.push(ev).drop_last() =~= log);
    assert(log.push(ev).last() == ev);
}

/// Exchange one byte with the flash chip: wait for room in the transmit
/// fifo, write `data`, then spin on the receive register until the empty
/// sentinel clears and return the low 8 bits. In the model, the transfer
/// is appended to the log and the next scripted byte is returned.
pub fn transfer_byte(bus: &mut SpiBus, data: u8) -> (r: u8)
    requires
        old(bus).wf(),
        old(bus).taken < old(bus).responses@.len(),
    ensures
        final(bus).wf(),
        final(bus).log@ == old(bus).log@.push(SpiEvent::Byte(data)),
        r == old(bus).responses@[old(bus).taken as int],
        final(bus).taken == old(bus).taken + 1,
        final(bus).responses == old(bus).responses,
        final(bus).cs_hold == old(bus).cs_hold,
        final(bus).mmap_enabled == old(bus).mmap_enabled,
{
    proof {
        lemma_sent_count_push(bus.log@, SpiEvent::Byte(data));
    }
    bus.log.push(SpiEvent::Byte(data));
    let n = bus.responses.len();
    assert(bus.taken < n);
    let r = bus.responses[bus.taken];
    bus.taken = bus.taken + 1;
    r
}

/// Write hold to the chip-select mode register: chip-select stays low
/// across the transfers that follow.
pub fn cs_hold(bus: &mut SpiBus)
    requires
        old(bus).wf(),
    ensures
        final(bus).wf(),
        final(bus).log@ == old(bus).log@.push(SpiEvent::Hold),
        final(bus).cs_hold,
        final(bus).taken == old(bus).taken,
        final(bus).responses == old(bus).responses,
        final(bus).mmap_enabled == old(bus).mmap_enabled,
{
    proof {
        lemma_sent_count_push(bus.log@, SpiEvent::Hold);
    }
    bus.log.push(SpiEvent::Hold);
    bus.cs_hold = true;
}

/// Write auto to the chip-select mode register: chip-select frames each
/// transfer on its own again.
pub fn cs_auto(bus: &mut SpiBus)
    requires
        old(bus).wf(),
    ensures
        final(bus).wf(),
        final(bus).log@ == old(bus).log@.push(SpiEvent::Auto),
        !final(bus).cs_hold,
        final(bus).taken == old(bus).taken,
        final(bus).responses == old(bus).responses,
        final(bus).mmap_enabled == old(bus).mmap_enabled,
{
    proof {
        lemma_sent_count_push(bus.log@, SpiEvent::Auto);
    }
    bus.log.push(SpiEvent::Auto);
    bus.cs_hold = false;
}

/// Clear the enable bit of the flash-control register, taking the
/// controller out of memory-mapped flash-read mode. Not an SPI
/// transaction: the log is untouched.
pub fn disable_mmap(bus: &mut SpiBus)
    ensures
        final(bus).log@ == old(bus).log@,
        !final(bus).mmap_enabled,
        final(bus).taken == old(bus).taken,
        final(bus).responses == old(bus).responses,
        final(bus).cs_hold == old(bus).cs_hold,
        old(bus).wf() ==> final(bus).wf(),
{
    bus.mmap_enabled = false;
}

/// Send the flash write-enable opcode, framed by chip-select auto mode.
/// Must precede every erase or program command.
pub fn write_enable(bus: &mut SpiBus)
    requires
        old(bus).wf(),
        old(bus).taken < old(bus).responses@.len(),
    ensures
        final(bus).wf(),
        final(bus).log@ == old(bus).log@.push(SpiEvent::Byte(OPCODE_WRITE_ENABLE)),
        final(bus).taken == old(bus).taken + 1,
        final(bus).responses == old(bus).responses,
        final(bus).cs_hold == old(bus).cs_hold,
        final(bus).mmap_enabled == old(bus).mmap_enabled,
{
    transfer_byte(bus, OPCODE_WRITE_ENABLE);
}

/// Flash opcode: write enable.
pub const OPCODE_WRITE_ENABLE: u8 = 0x06;

/// Flash opcode: read status register.
pub const OPCODE_READ_STATUS: u8 = 0x05;

/// Flash opcode: sector erase.
pub const OPCODE_SECTOR_ERASE: u8 = 0xd7;

/// Flash opcode: page program.
pub const OPCODE_PAGE_PROGRAM: u8 = 0x02;

/// The four bus events of one status-register read: hold chip-select,
/// send the read-status opcode, clock a dummy byte to fetch the reply,
/// release chip-select.
pub open spec fn status_read_events() -> Seq<SpiEvent> {
    seq![
        SpiEvent::Hold,
        SpiEvent::Byte(OPCODE_READ_STATUS),
        SpiEvent::Byte(0),
        SpiEvent::Auto,
    ]
}

/// Read the flash status register: hold chip-select, send the opcode,
/// clock out the reply with a dummy byte, release chip-select. Bit 0 of
/// the returned byte is the write-in-progress flag. Chip-select is left
/// in auto mode whatever was read.
pub fn read_status_register(bus: &mut SpiBus) -> (r: u8)
    requires
        old(bus).wf(),
        old(bus).taken + 2 <= old(bus).responses@.len(),
    ensures
        final(bus).wf(),
        final(bus).log@ == old(bus).log@ + status_read_events(),
        r == old(bus).responses@[old(bus).taken + 1],
        final(bus).taken == old(bus).taken + 2,
        final(bus).responses == old(bus).responses,
        !final(bus).cs_hold,
        final(bus).mmap_enabled == old(bus).mmap_enabled,
{
    cs_hold(bus);
    transfer_byte(bus, OPCODE_READ_STATUS);
    let r = transfer_byte(bus, 0);
    cs_auto(bus);
    proof {
        assert(bus.log@ =~= old(bus).log@ + status_read_events());
    }
    r
}

/// From position `start` of the response script, does repeated status
/// polling reach a reply with the write-in-progress bit clear before the
/// script runs out? Each poll consumes two responses and the second is
/// the status byte.
pub open spec fn wip_clears(responses: Seq<u8>, start: int) -> bool
    decreases responses.len() - start,
{
    &&& start + 1 < responses.len()
    &&& (responses[start + 1] & 1 == 0 || wip_clears(responses, start + 2))
}

/// How many status reads polling from `start` performs: one for the poll
/// that sees the write-in-progress bit clear, one for each busy reply
/// before it.
pub open spec fn polls_needed(responses: Seq<u8>, start: int) -> nat
    decreases responses.len() - start,
{
    if start + 1 >= responses.len() {
        1
    } else if responses[start + 1] & 1 == 0 {
        1
    } else {
        1 + polls_needed(responses, start + 2)
    }
}

/// The bus events of polling from `start` until the write-in-progress
/// bit clears: one status read per poll.
pub open spec fn poll_events(responses: Seq<u8>, start: int) -> Seq<SpiEvent>
    decreases responses.len() - start,
{
    if start + 1 >= responses.len() {
        status_read_events()
    } else if responses[start + 1] & 1 == 0 {
        status_read_events()
    } else {
        status_read_events() + poll_events(responses, start + 2)
    }
}

/// Poll the status register until the write-in-progress bit (bit 0)
/// clears: the erase or program command issued before has completed
/// inside the chip. Pure busy-wait, no iteration cap; on the model the
/// script must eventually answer not-busy (on hardware an unresponsive
/// chip hangs the routine, by design).
pub fn wait_for_wip_clear(bus: &mut SpiBus)
    requires
        old(bus).wf(),
        wip_clears(old(bus).responses@, old(bus).taken as int),
    ensures
        final(bus).wf(),
        final(bus).log@ == old(bus).log@ + poll_events(old(bus).responses@, old(bus).taken as int),
        final(bus).taken == old(bus).taken
            + 2 * polls_needed(old(bus).responses@, old(bus).taken as int),
        final(bus).responses == old(bus).responses,
        !final(bus).cs_hold,
        final(bus).mmap_enabled == old(bus).mmap_enabled,
{
    let ghost resp = old(bus).responses@;
    let ghost start0: int = old(bus).taken as int;
    let mut status = read_status_register(bus);
    while status & 1 != 0
        invariant
            bus.wf(),
            bus.responses == old(bus).responses,
            bus.responses@ == resp,
            bus.mmap_enabled == old(bus).mmap_enabled,
            !bus.cs_hold,
            status & 1 != 0 ==> {
                &&& wip_clears(resp, bus.taken as int)
                &&& old(bus).log@ + poll_events(resp, start0) =~= bus.log@
                    + poll_events(resp, bus.taken as int)
                &&& start0 + 2 * polls_needed(resp, start0) == bus.taken
                    + 2 * polls_needed(resp, bus.taken as int)
            },
            status & 1 == 0 ==> {
                &&& bus.log@ == old(bus).log@ + poll_events(resp, start0)
                &&& bus.taken == start0 + 2 * polls_needed(resp, start0)
            },
        decreases (if status & 1 != 0 {
            polls_needed(resp, bus.taken as int)
        } else {
            0nat
        }),
    {
        status = read_status_register(bus);
    }
}

} // verus!
