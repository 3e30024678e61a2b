use vstd::prelude::*;

verus! {

pub const CMD_SUCCESS: u32 = 0x0;
pub const INVALID_COMMAND: u32 = 0x01;
pub const SRC_ADDR_ERROR: u32 = 0x02;
pub const DST_ADDR_ERROR: u32 = 0x03;
pub const SRC_ADDR_NOT_MAPPED: u32 = 0x04;
pub const DST_ADDR_NOT_MAPPED: u32 = 0x05;
pub const COUNT_ERROR: u32 = 0x06;
pub const INVALID_SECTOR_OR_PAGE: u32 = 0x07;
pub const SECTOR_NOT_BLANK: u32 = 0x08;
pub const SECTOR_NOT_PREPARED_FOR_WRITE_OPERATION: u32 = 0x09;
pub const COMPARE_ERROR: u32 = 0x0a;
pub const BUSY: u32 = 0x0b;
pub const PARAM_ERROR: u32 = 0x0c;
pub const ADDR_ERROR: u32 = 0x0d;
pub const ADDR_NOT_MAPPED: u32 = 0x0e;
pub const CMD_LOCKED: u32 = 0x0f;
pub const INVALID_CODE: u32 = 0x10;
pub const INVALID_BAUD_RATE: u32 = 0x11;
pub const INVALID_STOP_BIT: u32 = 0x12;
pub const CODE_READ_PROTECTION_ENABLED: u32 = 0x13;
pub const USER_CODE_CHECKSUM: u32 = 0x15;
pub const EFRO_NO_POWER: u32 = 0x17;
pub const FLASH_NO_POWER: u32 = 0x18;
pub const FLASH_ERASE_PROGRAM: u32 = 0x20;
pub const INVALID_PAGE: u32 = 0x21;
pub const FLASH_NO_CLOCK: u32 = 0x1b;
pub const REINVOKE_ISP_CONFIG: u32 = 0x1c;
pub const NO_VALID_IMAGE: u32 = 0x1d;

} // verus!
