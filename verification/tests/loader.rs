use spi_flash_loader::EraseSector;
use spi_flash_loader::Init;
use spi_flash_loader::ProgramPage;
use spi_flash_loader::SpiBus;
use spi_flash_loader::SpiEvent;
use spi_flash_loader::UnInit;
use spi_flash_loader::spi::read_status_register;
use spi_flash_loader::spi::transfer_byte;
use spi_flash_loader::spi::wait_for_wip_clear;
use spi_flash_loader::spi::write_enable;

// The events of one status-register read; the reply byte never changes
// what the driver sends.
fn status_read() -> Vec<SpiEvent> {
    vec![
        SpiEvent::Hold,
        SpiEvent::Byte(0x05),
        SpiEvent::Byte(0x00),
        SpiEvent::Auto,
    ]
}

#[test]
fn transfer_byte_returns_the_received_byte() {
    let mut bus = SpiBus::new(vec![0xab]);
    let r = transfer_byte(&mut bus, 0x55);
    assert_eq!(r, 0xab);
    assert_eq!(bus.log, vec![SpiEvent::Byte(0x55)]);
    assert_eq!(bus.taken, 1);

    let mut bus = SpiBus::new(vec![0x00, 0xff]);
    assert_eq!(transfer_byte(&mut bus, 0x00), 0x00);
    assert_eq!(transfer_byte(&mut bus, 0xff), 0xff);
    assert_eq!(bus.log, vec![SpiEvent::Byte(0x00), SpiEvent::Byte(0xff)]);
}

#[test]
fn write_enable_sends_the_opcode() {
    let mut bus = SpiBus::new(vec![0x00]);
    write_enable(&mut bus);
    assert_eq!(bus.log, vec![SpiEvent::Byte(0x06)]);
    assert!(!bus.cs_hold);
}

#[test]
fn read_status_register_frames_the_read_and_returns_the_reply() {
    let mut bus = SpiBus::new(vec![0x00, 0x42]);
    let status = read_status_register(&mut bus);
    assert_eq!(status, 0x42);
    assert_eq!(bus.log, status_read());
    assert!(!bus.cs_hold);
}

#[test]
fn read_status_register_leaves_chip_select_in_auto_mode() {
    // Whatever the status byte read, and whatever mode chip-select was
    // in before, it is back in auto mode afterwards.
    for status in [0x00u8, 0x01, 0xff] {
        for held_before in [false, true] {
            let mut bus = SpiBus::new(vec![0x00, status]);
            bus.cs_hold = held_before;
            let r = read_status_register(&mut bus);
            assert_eq!(r, status);
            assert!(!bus.cs_hold);
        }
    }
}

#[test]
fn wait_for_wip_clear_polls_until_the_wip_bit_clears() {
    // Two busy replies (bit 0 set), then a clear one: three polls.
    let mut bus = SpiBus::new(vec![0x00, 0x01, 0x00, 0x03, 0x00, 0x02]);
    wait_for_wip_clear(&mut bus);
    let mut expected = Vec::new();
    expected.extend(status_read());
    expected.extend(status_read());
    expected.extend(status_read());
    assert_eq!(bus.log, expected);
    assert_eq!(bus.taken, 6);
    assert!(!bus.cs_hold);
}

#[test]
fn erase_sector_issues_the_documented_sequence() {
    // 5 frame transfers, then one busy poll and one clear poll.
    let responses = vec![0, 0, 0, 0, 0, 0, 0x01, 0, 0x00];
    let mut bus = SpiBus::new(responses);
    let adr: u32 = 0x0123_4567;
    let status = EraseSector(&mut bus, adr);
    assert_eq!(status, 0);

    let be = adr.to_be_bytes();
    let mut expected = vec![
        SpiEvent::Byte(0x06),
        SpiEvent::Hold,
        SpiEvent::Byte(0xd7),
        SpiEvent::Byte(be[1]),
        SpiEvent::Byte(be[2]),
        SpiEvent::Byte(be[3]),
        SpiEvent::Auto,
    ];
    expected.extend(status_read());
    expected.extend(status_read());
    assert_eq!(bus.log, expected);
    assert_eq!(expected[3], SpiEvent::Byte(0x23));
    assert_eq!(expected[4], SpiEvent::Byte(0x45));
    assert_eq!(expected[5], SpiEvent::Byte(0x67));
    assert!(!bus.cs_hold);
}

#[test]
fn erase_sector_drops_the_top_address_byte() {
    let responses = vec![0, 0, 0, 0, 0, 0, 0x00];
    let mut bus = SpiBus::new(responses);
    let status = EraseSector(&mut bus, 0xff00_0001);
    assert_eq!(status, 0);
    assert_eq!(bus.log[3], SpiEvent::Byte(0x00));
    assert_eq!(bus.log[4], SpiEvent::Byte(0x00));
    assert_eq!(bus.log[5], SpiEvent::Byte(0x01));
}

#[test]
fn program_page_transmits_the_buffer_after_the_framing() {
    // 8 frame transfers (write-enable, opcode, 3 address, 3 data), then
    // one clear poll.
    let responses = vec![0, 0, 0, 0, 0, 0, 0, 0, 0, 0x00];
    let mut bus = SpiBus::new(responses);
    let data = [0xdeu8, 0xad, 0xbe];
    let status = ProgramPage(&mut bus, 0x00aa_bbcc, &data);
    assert_eq!(status, 0);

    let mut expected = vec![
        SpiEvent::Byte(0x06),
        SpiEvent::Hold,
        SpiEvent::Byte(0x02),
        SpiEvent::Byte(0xaa),
        SpiEvent::Byte(0xbb),
        SpiEvent::Byte(0xcc),
        SpiEvent::Byte(0xde),
        SpiEvent::Byte(0xad),
        SpiEvent::Byte(0xbe),
        SpiEvent::Auto,
    ];
    expected.extend(status_read());
    assert_eq!(bus.log, expected);
    assert!(!bus.cs_hold);
}

#[test]
fn program_page_with_an_empty_buffer_sends_only_the_framing() {
    let responses = vec![0, 0, 0, 0, 0, 0, 0x00];
    let mut bus = SpiBus::new(responses);
    let status = ProgramPage(&mut bus, 0x0000_0100, &[]);
    assert_eq!(status, 0);
    let mut expected = vec![
        SpiEvent::Byte(0x06),
        SpiEvent::Hold,
        SpiEvent::Byte(0x02),
        SpiEvent::Byte(0x00),
        SpiEvent::Byte(0x01),
        SpiEvent::Byte(0x00),
        SpiEvent::Auto,
    ];
    expected.extend(status_read());
    assert_eq!(bus.log, expected);
}

#[test]
fn init_clears_the_memory_mapped_flash_bit_and_returns_zero() {
    for (adr, clk, fnc) in [(0u32, 0u32, 0u32), (0x2000_0000, 1_000_000, 2), (u32::MAX, u32::MAX, u32::MAX)] {
        let mut bus = SpiBus::new(vec![]);
        assert!(bus.mmap_enabled);
        let status = Init(&mut bus, adr, clk, fnc);
        assert_eq!(status, 0);
        assert!(!bus.mmap_enabled);
        assert!(bus.log.is_empty());
    }
}

#[test]
fn init_is_idempotent() {
    let mut bus = SpiBus::new(vec![]);
    assert_eq!(Init(&mut bus, 0, 0, 0), 0);
    assert_eq!(Init(&mut bus, 5, 6, 7), 0);
    assert!(!bus.mmap_enabled);
    assert!(bus.log.is_empty());
}

#[test]
fn uninit_returns_zero_and_issues_no_transaction() {
    for fnc in [0u32, 1, 2, 3] {
        let mut bus = SpiBus::new(vec![0x00]);
        write_enable(&mut bus);
        let log_before = bus.log.clone();
        let taken_before = bus.taken;
        let status = UnInit(&mut bus, fnc);
        assert_eq!(status, 0);
        assert_eq!(bus.log, log_before);
        assert_eq!(bus.taken, taken_before);
    }
}
