//! The device descriptor: an immutable geometry record the host reads
//! once to plan which sectors to erase and which pages to program. Its
//! sector table is scanned from index 0 and ends at a sentinel entry
//! whose size and address are both `0xffff_ffff`.

use vstd::prelude::*;

verus! {

/// One entry of the descriptor's sector table: a run of sectors of one
/// size starting at `address` within the device.
#[derive(Clone, Copy, Debug, PartialEq, Eq, Structural)]
pub struct FlashSector {
    pub size: u32,
    pub address: u32,
}

impl FlashSector {
    /// The all-zero filler entry that pads the fixed-length table past
    /// the sentinel.
    pub fn default() -> (r: Self)
        ensures
            r.size == 0,
            r.address == 0,
    {
        FlashSector { size: 0, address: 0 }
    }
}

/// The entry that terminates the sector table.
pub open spec fn is_sentinel(s: FlashSector) -> bool {
    s.size == 0xffff_ffff && s.address == 0xffff_ffff
}

/// The sentinel stands at index `i`: every entry before it is a real
/// sector run lying below the device size.
pub open spec fn sentinel_at(table: Seq<FlashSector>, device_size: u32, i: int) -> bool {
    &&& 0 <= i < table.len()
    &&& is_sentinel(table[i])
    &&& forall|j: int| 0 <= j < i ==> !is_sentinel(table[j]) && table[j].address < device_size
}

/// A scan of the table from index 0 terminates: it reaches a sentinel,
/// and every entry before the sentinel has an address below the device
/// size.
pub open spec fn sector_table_wf(table: Seq<FlashSector>, device_size: u32) -> bool {
    exists|i: int| sentinel_at(table, device_size, i)
}

/// The sector table of this device: one uniform run of 0x1000-byte
/// sectors from address 0, the sentinel, and zero filler entries up to
/// the fixed table length of 512.
pub fn sectors() -> (table: Vec<FlashSector>)
    ensures
        table@.len() == 512,
        table@[0] == (FlashSector { size: 0x1000, address: 0 }),
        is_sentinel(table@[1]),
        forall|i: int| 2 <= i < 512 ==> table@[i] == (FlashSector { size: 0, address: 0 }),
{
    let mut table: Vec<FlashSector> = Vec::new();
    table.push(FlashSector { size: 0x1000, address: 0 });
    table.push(FlashSector { size: 0xffff_ffff, address: 0xffff_ffff });
    let mut i: usize = 2;
    while i < 512
        invariant
            2 <= i <= 512,
            table@.len() == i,
            table@[0] == (FlashSector { size: 0x1000, address: 0 }),
            is_sentinel(table@[1]),
            forall|j: int| 2 <= j < i ==> table@[j] == (FlashSector { size: 0, address: 0 }),
        decreases 512 - i,
    {
        table.push(FlashSector::default());
        i = i + 1;
    }
    table
}

/// The geometry record for this device, field for field: version tag,
/// blank 128-byte name, device type, base address, total size, page
/// size, erased-cell fill value, the program and erase timeouts in
/// milliseconds, and the sector table.
pub struct FlashDeviceDescription {
    pub vers: u16,
    pub dev_name: Vec<u8>,
    pub dev_type: u16,
    pub dev_addr: u32,
    pub device_size: u32,
    pub page_size: u32,
    pub reserved: u32,
    pub empty: u8,
    pub program_time_out: u32,
    pub erase_time_out: u32,
    pub flash_sectors: Vec<FlashSector>,
}

/// Build the descriptor the host reads: a 32 MiB device mapped at
/// 0x2000_0000, programmed 256 bytes a page, erased to 0xff, with the
/// sector table of [`sectors`]. Its sector table scans to a sentinel,
/// and every entry before the sentinel lies below the device size.
pub fn flash_device() -> (d: FlashDeviceDescription)
    ensures
        d.vers == 0x0101,
        d.dev_name@.len() == 128,
        forall|i: int| 0 <= i < 128 ==> d.dev_name@[i] == 0,
        d.dev_type == 5,
        d.dev_addr == 0x2000_0000,
        d.device_size == 0x0200_0000,
        d.page_size == 256,
        d.reserved == 0,
        d.empty == 0xff,
        d.program_time_out == 1000,
        d.erase_time_out == 2000,
        d.flash_sectors@.len() == 512,
        d.flash_sectors@[0] == (FlashSector { size: 0x1000, address: 0 }),
        is_sentinel(d.flash_sectors@[1]),
        forall|i: int| 2 <= i < 512 ==> d.flash_sectors@[i] == (FlashSector {
            size: 0,
            address: 0,
        }),
        sector_table_wf(d.flash_sectors@, d.device_size),
{
    let mut dev_name: Vec<u8> = Vec::new();
    let mut i: usize = 0;
    while i < 128
        invariant
            i <= 128,
            dev_name@.len() == i,
            forall|j: int| 0 <= j < i ==> dev_name@[j] == 0,
        decreases 128 - i,
    {
        dev_name.push(0);
        i = i + 1;
    }
    let d = FlashDeviceDescription {
        vers: 0x0101,
        dev_name,
        dev_type: 5,
        dev_addr: 0x2000_0000,
        device_size: 0x0200_0000,
        page_size: 256,
        reserved: 0,
        empty: 0xff,
        program_time_out: 1000,
        erase_time_out: 2000,
        flash_sectors: sectors(),
    };
    proof {
        assert(sentinel_at(d.flash_sectors@, d.device_size, 1));
    }
    d
}

} // verus!
