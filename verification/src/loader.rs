//! The four flash-loader entry points a debug-probe host calls: `Init`,
//! `EraseSector`, `ProgramPage`, `UnInit`. Each one sequences flash
//! command primitives over the SPI bus and returns a status code, 0 for
//! success. Erase and program commands frame a one-byte opcode and a
//! 3-byte big-endian address (the top byte of the 32-bit input is
//! dropped: the chip's address space is 24-bit) under a held chip-select,
//! then poll the status register until the chip finishes internally.

use vstd::prelude::*;

use crate::spi::OPCODE_PAGE_PROGRAM;
use crate::spi::OPCODE_SECTOR_ERASE;
use crate::spi::OPCODE_WRITE_ENABLE;
use crate::spi::SpiBus;
use crate::spi::SpiEvent;
use crate::spi::cs_auto;
use crate::spi::cs_hold;
use crate::spi::disable_mmap;
use crate::spi::poll_events;
use crate::spi::polls_needed;
use crate::spi::transfer_byte;
use crate::spi::wait_for_wip_clear;
use crate::spi::wip_clears;
use crate::spi::write_enable;

verus! {

/// The three address bytes of a command frame: the low 24 bits of `adr`,
/// most significant first (`adr.to_be_bytes()[1..4]`).
pub open spec fn address_events(adr: u32) -> Seq<SpiEvent> {
    seq![
        SpiEvent::Byte(((adr >> 16) & 0xff) as u8),
        SpiEvent::Byte(((adr >> 8) & 0xff) as u8),
        SpiEvent::Byte((adr & 0xff) as u8),
    ]
}

/// Each payload byte clocked out in order.
pub open spec fn payload_events(payload: Seq<u8>) -> Seq<SpiEvent> {
    Seq::new(payload.len(), |i: int| SpiEvent::Byte(payload[i]))
}

/// One complete erase or program command: write-enable in auto mode,
/// chip-select held, the opcode, the 3-byte address, the payload,
/// chip-select released.
pub open spec fn command_frame_events(opcode: u8, adr: u32, payload: Seq<u8>) -> Seq<SpiEvent> {
    seq![SpiEvent::Byte(OPCODE_WRITE_ENABLE), SpiEvent::Hold, SpiEvent::Byte(opcode)]
        + address_events(adr) + payload_events(payload) + seq![SpiEvent::Auto]
}

/// The bus events of `EraseSector(adr)` up to the status polling.
pub open spec fn erase_frame_events(adr: u32) -> Seq<SpiEvent> {
    command_frame_events(OPCODE_SECTOR_ERASE, adr, Seq::empty())
}

/// The bus events of `ProgramPage(adr, data)` up to the status polling.
pub open spec fn program_frame_events(adr: u32, data: Seq<u8>) -> Seq<SpiEvent> {
    command_frame_events(OPCODE_PAGE_PROGRAM, adr, data)
}

/// Send the low 24 bits of `adr`, most significant byte first.
fn send_address(bus: &mut SpiBus, adr: u32)
    requires
        old(bus).wf(),
        old(bus).taken + 3 <= old(bus).responses@.len(),
    ensures
        final(bus).wf(),
        final(bus).log@ == old(bus).log@ + address_events(adr),
        final(bus).taken == old(bus).taken + 3,
        final(bus).responses == old(bus).responses,
        final(bus).cs_hold == old(bus).cs_hold,
        final(bus).mmap_enabled == old(bus).mmap_enabled,
{
    proof {
        assert((adr >> 16) & 0xff < 256 && (adr >> 8) & 0xff < 256 && adr & 0xff < 256)
            by (bit_vector);
    }
    transfer_byte(bus, ((adr >> 16) & 0xff) as u8);
    transfer_byte(bus, ((adr >> 8) & 0xff) as u8);
    transfer_byte(bus, (adr & 0xff) as u8);
    proof {
        assert(bus.log@ =~= old(bus).log@ + address_events(adr));
    }
}

/// Erase the flash sector at `adr`: write-enable, then the sector-erase
/// opcode and address under a held chip-select, then poll until the chip
/// reports the erase complete. Returns 0; completion is inferred solely
/// from the write-in-progress bit clearing, with no read-back of the
/// erased region. The caller keeps `adr` sector-aligned; this routine
/// does not check it.
#[allow(non_snake_case)]
pub fn EraseSector(bus: &mut SpiBus, adr: u32) -> (status: i32)
    requires
        old(bus).wf(),
        wip_clears(old(bus).responses@, old(bus).taken + 5),
    ensures
        status == 0,
        final(bus).wf(),
        final(bus).log@ == old(bus).log@ + erase_frame_events(adr)
            + poll_events(old(bus).responses@, old(bus).taken + 5),
        final(bus).taken == old(bus).taken + 5
            + 2 * polls_needed(old(bus).responses@, old(bus).taken + 5),
        final(bus).responses == old(bus).responses,
        !final(bus).cs_hold,
        final(bus).mmap_enabled == old(bus).mmap_enabled,
{
    write_enable(bus);
    cs_hold(bus);
    transfer_byte(bus, OPCODE_SECTOR_ERASE);
    send_address(bus, adr);
    cs_auto(bus);
    proof {
        assert(bus.log@ =~= old(bus).log@ + erase_frame_events(adr));
    }
    wait_for_wip_clear(bus);
    proof {
        assert(bus.log@ =~= old(bus).log@ + erase_frame_events(adr)
            + poll_events(old(bus).responses@, old(bus).taken + 5));
    }
    0
}

/// Program `data` into the page at `adr`: write-enable, then the
/// page-program opcode, address and every data byte in order under a
/// held chip-select, then poll until the chip reports the program
/// complete. Returns 0. The caller keeps `data` within one page of the
/// device (`data.len()` at most the descriptor's page size, not crossing
/// a page boundary); this routine does not check it.
#[allow(non_snake_case)]
pub fn ProgramPage(bus: &mut SpiBus, adr: u32, data: &[u8]) -> (status: i32)
    requires
        old(bus).wf(),
        wip_clears(old(bus).responses@, old(bus).taken + 5 + data@.len()),
    ensures
        status == 0,
        final(bus).wf(),
        final(bus).log@ == old(bus).log@ + program_frame_events(adr, data@)
            + poll_events(old(bus).responses@, old(bus).taken + 5 + data@.len()),
        final(bus).taken == old(bus).taken + 5 + data@.len()
            + 2 * polls_needed(old(bus).responses@, old(bus).taken + 5 + data@.len()),
        final(bus).responses == old(bus).responses,
        !final(bus).cs_hold,
        final(bus).mmap_enabled == old(bus).mmap_enabled,
{
    let ghost resp = old(bus).responses@;
    let ghost t0 = old(bus).taken as int;
    let ghost n = data@.len() as int;
    write_enable(bus);
    cs_hold(bus);
    transfer_byte(bus, OPCODE_PAGE_PROGRAM);
    send_address(bus, adr);
    let ghost framed = bus.log@;
    let mut i: usize = 0;
    while i < data.len()
        invariant
            bus.wf(),
            i <= data@.len(),
            n == data@.len(),
            bus.taken == t0 + 5 + i,
            bus.responses == old(bus).responses,
            bus.responses@ == resp,
            bus.cs_hold,
            bus.mmap_enabled == old(bus).mmap_enabled,
            bus.log@ == framed + payload_events(data@.take(i as int)),
            wip_clears(resp, t0 + 5 + n),
        decreases data@.len() - i,
    {
        proof {
            assert(bus.taken < resp.len());
            assert(payload_events(data@.take(i + 1)) =~= payload_events(
                data@.take(i as int),
            ).push(SpiEvent::Byte(data@[i as int])));
        }
        transfer_byte(bus, data[i]);
        i = i + 1;
        proof {
            assert(bus.log@ =~= framed + payload_events(data@.take(i as int)));
        }
    }
    proof {
        assert(data@.take(n) =~= data@);
    }
    cs_auto(bus);
    proof {
        assert(bus.log@ =~= old(bus).log@ + program_frame_events(adr, data@));
    }
    wait_for_wip_clear(bus);
    proof {
        assert(bus.log@ =~= old(bus).log@ + program_frame_events(adr, data@)
            + poll_events(old(bus).responses@, old(bus).taken + 5 + data@.len()));
    }
    0
}

/// Prepare the controller for command sequencing: clear the flash-control
/// enable bit, taking it out of memory-mapped flash-read mode, so SPI
/// framing is unambiguous. The three parameters of the host contract
/// (target address, clock, operation mode) are not used. Returns 0
/// whatever they hold; issues no SPI transaction; idempotent.
#[allow(non_snake_case)]
pub fn Init(bus: &mut SpiBus, _adr: u32, _clk: u32, _fnc: u32) -> (status: i32)
    ensures
        status == 0,
        !final(bus).mmap_enabled,
        final(bus).log@ == old(bus).log@,
        final(bus).taken == old(bus).taken,
        final(bus).responses == old(bus).responses,
        final(bus).cs_hold == old(bus).cs_hold,
        old(bus).wf() ==> final(bus).wf(),
{
    disable_mmap(bus);
    0
}

/// De-initialise: nothing to undo. Returns 0 and leaves the bus exactly
/// as it was — no SPI transaction, no register write.
#[allow(non_snake_case)]
pub fn UnInit(bus: &mut SpiBus, _fnc: u32) -> (status: i32)
    ensures
        status == 0,
        *final(bus) == *old(bus),
{
    0
}

} // verus!
