//! Flash-programming routines for an external SPI NOR flash chip driven
//! through a memory-mapped QSPI peripheral.
//!
//! The command sequencing (write-enable, sector-erase, page-program,
//! status-polling) is verified against a register-level model of the
//! peripheral: a bus that records every byte clocked out and every
//! chip-select transition, and replays a script of received bytes.

pub mod device;
pub mod loader;
pub mod spi;

pub use device::FlashDeviceDescription;
pub use device::FlashSector;
pub use device::flash_device;
pub use device::sectors;
pub use loader::EraseSector;
pub use loader::Init;
pub use loader::ProgramPage;
pub use loader::UnInit;
pub use spi::SpiBus;
pub use spi::SpiEvent;
