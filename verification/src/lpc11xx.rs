//! LPC111x: 1 kB sector numbering over 4 kB erase sectors.
use vstd::prelude::*;

use crate::iap::Iap;

verus! {

pub const PAGE_SIZE: u32 = 256;
pub const SECTOR_SIZE: u32 = 4096;
pub const EMPTY_VAL: u8 = 0xFF;
pub const FLASH_SIZE: u32 = 0x8000;

pub const IAP_ENTRY_ADDRESS: usize = 0x1FFF1FF1;

pub const MAINCLKSEL: usize = 0x40048070;
pub const MAINCLKUEN: usize = 0x40048074;
pub const MAINCLKDIV: usize = 0x40048078;

pub const PLL0CON: usize = 0x400FC080;
pub const PLL0CFG: usize = 0x400FC084;
pub const PLL0STAT: usize = 0x400FC088;
pub const PLL0FEED: usize = 0x400FC08C;

pub const MEMMAP: usize = 0x40048000;

pub const STARTUP_CORE_CLOCK_FREQ_KHZ: u32 = 12_000;

pub const CRP: usize = 0x0000_02fc;

pub const CHIP_NAME: &'static str = "lpc111x";

pub struct Chip;

impl Chip {
    pub fn new() -> Self {
        Chip
    }
}

impl Iap for Chip {
    open spec fn spec_iap_address(&self) -> usize {
        IAP_ENTRY_ADDRESS
    }

    /// Sector numbers count 1 kB units of the address.
    open spec fn spec_addr_to_sector(&self, addr: u32) -> u32 {
        addr / 1024
    }

    fn iap_address(&self) -> (a: usize) {
        IAP_ENTRY_ADDRESS
    }

    fn addr_to_sector(&self, addr: u32) -> (s: u32) {
        assert(addr >> 10 == addr / 1024) by (bit_vector);
        addr >> 10
    }
}

/// The sector of an address is the 1 kB block that holds it.
pub proof fn lemma_addr_in_sector(chip: Chip, addr: u32)
    ensures
        chip.spec_addr_to_sector(addr) * 1024 <= addr < (chip.spec_addr_to_sector(addr) + 1) * 1024,
{
}

/// Higher addresses never map to lower sectors.
pub proof fn lemma_sector_monotonic(chip: Chip, a: u32, b: u32)
    requires
        a <= b,
    ensures
        chip.spec_addr_to_sector(a) <= chip.spec_addr_to_sector(b),
{
}

} // verus!
