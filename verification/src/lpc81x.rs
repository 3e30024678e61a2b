//! LPC81x: uniform 1 kB sectors.
use vstd::prelude::*;

use crate::iap::Iap;

verus! {

pub const PAGE_SIZE: u32 = 64;
pub const SECTOR_SIZE: u32 = 1024;
pub const EMPTY_VAL: u8 = 0xFF;

pub const IAP_ENTRY_ADDRESS: usize = 0x1FFF_1FF1;

pub const SYSMEMREMAP: usize = 0x40048000;

pub const MAINCLKSEL: usize = 0x40048070;
pub const MAINCLKUEN: usize = 0x40048074;
pub const SYSAHBCLKDIV: usize = 0x40048078;

pub const STARTUP_CORE_CLOCK_FREQ_KHZ: u32 = 12_000;

pub const CRP: usize = 0x0000_02fc;

pub struct Chip;

impl Chip {
    pub fn new() -> Self {
        Chip
    }
}

impl Iap for Chip {
    open spec fn spec_iap_address(&self) -> usize {
        IAP_ENTRY_ADDRESS
    }

    open spec fn spec_addr_to_sector(&self, addr: u32) -> u32 {
        addr / SECTOR_SIZE
    }

    fn iap_address(&self) -> (a: usize) {
        IAP_ENTRY_ADDRESS
    }

    fn addr_to_sector(&self, addr: u32) -> (s: u32) {
        addr / SECTOR_SIZE
    }
}

/// The sector of an address is the 1 kB sector that holds it.
pub proof fn lemma_addr_in_sector(chip: Chip, addr: u32)
    ensures
        chip.spec_addr_to_sector(addr) * SECTOR_SIZE <= addr < (chip.spec_addr_to_sector(addr) + 1) * SECTOR_SIZE,
{
}

/// Higher addresses never map to lower sectors.
pub proof fn lemma_sector_monotonic(chip: Chip, a: u32, b: u32)
    requires
        a <= b,
    ensures
        chip.spec_addr_to_sector(a) <= chip.spec_addr_to_sector(b),
{
}

} // verus!
