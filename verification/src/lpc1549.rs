//! LPC1549: uniform 4 kB sectors.
use vstd::prelude::*;

use crate::iap::Iap;

verus! {

pub const PAGE_SIZE: u32 = 1024;
pub const SECTOR_SIZE: usize = 4096;

pub const IAP_ENTRY_ADDRESS: usize = 0x03000205;

pub const SYSMEMREMAP: usize = 0x40074000;
pub const MAINCLKSELA: usize = 0x40074080;
pub const MAINCLKSELB: usize = 0x40074084;
pub const SYSAHBCLKDIV: usize = 0x400740C0;
pub const SYSAHBCLKCTRL0: usize = 0x400740C4;

pub const MEMMAP: usize = 0x400FC040;

pub const STARTUP_CORE_CLOCK_FREQ_KHZ: u32 = 12_000;

pub struct Lpc1549;

impl Lpc1549 {
    pub fn new() -> Self {
        Lpc1549
    }
}

impl Iap for Lpc1549 {
    open spec fn spec_iap_address(&self) -> usize {
        IAP_ENTRY_ADDRESS
    }

    open spec fn spec_addr_to_sector(&self, addr: u32) -> u32 {
        addr / 4096
    }

    fn iap_address(&self) -> (a: usize) {
        IAP_ENTRY_ADDRESS
    }

    fn addr_to_sector(&self, addr: u32) -> (s: u32) {
        addr / 4096
    }
}

/// The sector of an address is the 4 kB sector that holds it.
pub proof fn lemma_addr_in_sector(chip: Lpc1549, addr: u32)
    ensures
        chip.spec_addr_to_sector(addr) * SECTOR_SIZE <= addr < (chip.spec_addr_to_sector(addr) + 1) * SECTOR_SIZE,
{
}

/// Higher addresses never map to lower sectors.
pub proof fn lemma_sector_monotonic(chip: Lpc1549, a: u32, b: u32)
    requires
        a <= b,
    ensures
        chip.spec_addr_to_sector(a) <= chip.spec_addr_to_sector(b),
{
}

} // verus!
