//! LPC178x/7x: sixteen 4 kB sectors followed by 32 kB sectors.
use vstd::prelude::*;

use crate::iap::Iap;

verus! {

pub const PAGE_SIZE: u32 = 1024;
pub const SECTOR_SIZE: u32 = 4096;
pub const EMPTY_VAL: u8 = 0xFF;
pub const FLASH_SIZE: u32 = 0x80000;
pub const SECTOR_SIZE_2: u32 = 32768;
pub const SECTOR_ADDR_2: u32 = 0x10000;

pub const IAP_ENTRY_ADDRESS: usize = 0x1fff1ff1;

pub const SYSCON_BASE: u32 = 0x400FC000;
pub const CCLKSEL: usize = 0x400FC104;
pub const CLKSRCSEL: usize = 0x400FC10C;
pub const MAINCLKSELB: usize = 0x40074084;
pub const SYSAHBCLKDIV: usize = 0x400740C0;
pub const SYSAHBCLKCTRL0: usize = 0x400740C4;

pub const MEMMAP: usize = 0x400FC040;

pub const STARTUP_CORE_CLOCK_FREQ_KHZ: u32 = 12_000;

pub struct Chip;

impl Chip {
    pub fn new() -> Self {
        Chip
    }
}

/// The first address of sector `s`: sixteen 4 kB sectors from 0, then 32 kB
/// sectors from `SECTOR_ADDR_2`.
pub open spec fn sector_base(s: int) -> int {
    if s < 16 {
        s * SECTOR_SIZE
    } else {
        SECTOR_ADDR_2 + (s - 16) * SECTOR_SIZE_2
    }
}

impl Iap for Chip {
    open spec fn spec_iap_address(&self) -> usize {
        IAP_ENTRY_ADDRESS
    }

    open spec fn spec_addr_to_sector(&self, addr: u32) -> u32 {
        if addr < SECTOR_ADDR_2 {
            addr / SECTOR_SIZE
        } else {
            (16 + (addr - SECTOR_ADDR_2) as u32 / SECTOR_SIZE_2) as u32
        }
    }

    fn iap_address(&self) -> (a: usize) {
        IAP_ENTRY_ADDRESS
    }

    fn addr_to_sector(&self, addr: u32) -> (s: u32) {
        if addr < SECTOR_ADDR_2 {
            // first 16 sectors are 4KB
            addr / SECTOR_SIZE
        } else {
            // remaining sectors are 32KB
            16 + ((addr - SECTOR_ADDR_2) / SECTOR_SIZE_2)
        }
    }
}

/// The sector of an address is the sector of the layout that holds it.
pub proof fn lemma_addr_in_sector(chip: Chip, addr: u32)
    ensures
        sector_base(chip.spec_addr_to_sector(addr) as int) <= addr < sector_base(chip.spec_addr_to_sector(addr) + 1),
{
}

/// Higher addresses never map to lower sectors.
pub proof fn lemma_sector_monotonic(chip: Chip, a: u32, b: u32)
    requires
        a <= b,
    ensures
        chip.spec_addr_to_sector(a) <= chip.spec_addr_to_sector(b),
{
}

} // verus!
