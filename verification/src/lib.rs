//! Flash programming support for NXP LPC microcontrollers through their
//! In-Application-Programming ROM.
use vstd::prelude::*;

pub mod boot_sig;
pub mod flash_algo;
pub mod hex;
pub mod iap;
pub mod lpc11xx;
pub mod lpc13xx;
pub mod lpc1549;
pub mod lpc1788;
pub mod lpc43xx;
pub mod lpc81x;
pub mod target_yaml;

pub use iap::iap_retcode_raw;
pub use iap::IapRetcode;

verus! {

/// Code read protection level, read from the CRP word in flash.
#[derive(Clone, Copy, Debug, PartialEq, Eq, Structural)]
pub enum CrpLevel {
    NoCrp,
    NoIsp,
    Crp1,
    Crp2,
    Crp3,
}

/// Address of the code read protection word.
pub const CRP: usize = 0x0000_02fc;

/// The protection level that a CRP word selects: four magic values select a
/// level, every other value means no protection.
pub open spec fn spec_crp_level(raw: u32) -> CrpLevel {
    if raw == 0x4e69_7370 {
        CrpLevel::NoIsp
    } else if raw == 0x1234_5678 {
        CrpLevel::Crp1
    } else if raw == 0x8765_4321 {
        CrpLevel::Crp2
    } else if raw == 0x4321_8765 {
        CrpLevel::Crp3
    } else {
        CrpLevel::NoCrp
    }
}

/// The protection level that the CRP word `raw` selects.
pub fn crp_level(raw: u32) -> (r: CrpLevel)
    ensures
        r == spec_crp_level(raw),
{
    match raw {
        0x4e69_7370 => CrpLevel::NoIsp,
        0x1234_5678 => CrpLevel::Crp1,
        0x8765_4321 => CrpLevel::Crp2,
        0x4321_8765 => CrpLevel::Crp3,
        _ => CrpLevel::NoCrp,
    }
}

} // verus!
