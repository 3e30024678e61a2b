//! LPC43xx: flash bank A with eight 8 kB sectors followed by 64 kB sectors.
use vstd::prelude::*;

use crate::iap::Iap;

verus! {

pub const PAGE_SIZE: u32 = 512;
pub const SECTOR_SIZE: u32 = 65536;
pub const SECTOR_SIZE_SMALL: u32 = 8192;
pub const SECTOR_SIZE_LARGE: u32 = 0x10000;
pub const BANK_A_START_ADDR: u32 = 0x1A000000;
pub const BANK_A_8K_ADDR: u32 = 0x1A000000;
pub const BANK_A_64K_ADDR: u32 = 0x1A010000;
pub const EMPTY_VAL: u8 = 0xFF;
pub const FLASH_SIZE: u32 = 0x00080000;

/// Unlike other LPC chips this address stores the location of the IAP
/// function, not the function itself.
pub const IAP_ENTRY_ADDRESS: usize = 0x10400100;

/// Reset value = 0x1040_0000
pub const M4MEMMAP: usize = 0x40043100;

pub const CCLK: u32 = 12000;

pub const STARTUP_CORE_CLOCK_FREQ_KHZ: u32 = 120_000;

pub const CRP: usize = 0x0000_02fc;

pub const BASE_MX_CLK: usize = 0x4005006C;

pub const CHIP_NAME: &'static str = "lpc43xx";

/// An LPC43xx, with the IAP entry point that the ROM publishes at
/// `IAP_ENTRY_ADDRESS`.
pub struct Chip {
    iap_address: usize,
}

impl Chip {
    /// The chip whose IAP entry point is `iap_address`, the word read from
    /// `IAP_ENTRY_ADDRESS`.
    pub fn from_iap_address(iap_address: usize) -> (c: Self)
        ensures
            c.spec_iap_address() == iap_address,
    {
        Chip { iap_address }
    }
}

/// The first address of sector `s` of bank A: eight 8 kB sectors, then 64 kB
/// sectors.
pub open spec fn sector_base(s: int) -> int {
    if s < 8 {
        BANK_A_START_ADDR + s * SECTOR_SIZE_SMALL
    } else {
        BANK_A_64K_ADDR + (s - 8) * SECTOR_SIZE_LARGE
    }
}

/// Whether `addr` lies in flash bank A.
pub open spec fn in_bank_a(addr: u32) -> bool {
    BANK_A_START_ADDR <= addr < BANK_A_START_ADDR + FLASH_SIZE
}

impl Iap for Chip {
    closed spec fn spec_iap_address(&self) -> usize {
        self.iap_address
    }

    /// Bits 13 to 19 of the address count 8 kB units; from the seventh on,
    /// eight of them make one 64 kB sector.
    open spec fn spec_addr_to_sector(&self, addr: u32) -> u32 {
        let n = (addr & 0x000FF000) >> 13;
        if n >= 0x07 {
            (0x07 + (n >> 3)) as u32
        } else {
            n
        }
    }

    fn iap_address(&self) -> (a: usize) {
        self.iap_address
    }

    fn addr_to_sector(&self, addr: u32) -> (s: u32) {
        //  8kB Sector
        let n = (addr & 0x000FF000) >> 13;
        assert(n <= 0x7f) by (bit_vector)
            requires
                n == (addr & 0x000FF000u32) >> 13u32,
        ;
        assert(n >> 3 <= 0x0f) by (bit_vector)
            requires
                n <= 0x7f,
        ;
        if n >= 0x07 {
            // 64kB Sector
            0x07 + (n >> 3)
        } else {
            n
        }
    }
}

proof fn lemma_units_in_bank(addr: u32)
    requires
        in_bank_a(addr),
    ensures
        (addr & 0x000FF000) >> 13 == ((addr - BANK_A_START_ADDR) as u32) / 8192,
        ((addr & 0x000FF000) >> 13) >> 3 == ((addr - BANK_A_START_ADDR) as u32) / 65536,
{
    assert((addr & 0x000FF000u32) >> 13u32 == ((addr - 0x1A000000u32) as u32) / 8192u32) by (bit_vector)
        requires
            0x1A000000u32 <= addr < 0x1A080000u32,
    ;
    assert(((addr & 0x000FF000u32) >> 13u32) >> 3u32 == ((addr - 0x1A000000u32) as u32) / 65536u32) by (bit_vector)
        requires
            0x1A000000u32 <= addr < 0x1A080000u32,
    ;
}

/// In bank A, the sector of an address is the sector of the layout that holds it.
pub proof fn lemma_addr_in_sector(chip: Chip, addr: u32)
    requires
        in_bank_a(addr),
    ensures
        sector_base(chip.spec_addr_to_sector(addr) as int) <= addr < sector_base(chip.spec_addr_to_sector(addr) + 1),
{
    lemma_units_in_bank(addr);
}

/// In bank A, higher addresses never map to lower sectors.
pub proof fn lemma_sector_monotonic(chip: Chip, a: u32, b: u32)
    requires
        in_bank_a(a),
        in_bank_a(b),
        a <= b,
    ensures
        chip.spec_addr_to_sector(a) <= chip.spec_addr_to_sector(b),
{
    lemma_units_in_bank(a);
    lemma_units_in_bank(b);
}

} // verus!
