//! Commands and return codes of the In-Application-Programming (IAP) ROM
//! interface of NXP LPC microcontrollers.
//!
//! A call into the ROM takes a five-word command table and fills a five-word
//! result table whose first word is a status code.  This module builds the
//! command tables and interprets the result tables; the call itself is made by
//! the code that runs on the chip.
use vstd::prelude::*;

pub mod iap_retcode_raw;

verus! {

/// IAP command numbers.
#[allow(non_camel_case_types)]
#[derive(Clone, Copy, Debug, PartialEq, Eq, Structural)]
pub enum IapCommandNum {
    /// Initialise IAP (some parts)
    IAP_INIT,
    /// Prepare sector(s) for write operation
    IAP_PREPARE,
    /// Copy RAM to Flash
    IAP_COPY_RAM2FLASH,
    /// Erase sector(s)
    IAP_ERASE,
    /// Blank check sector(s)
    IAP_BLANK_CHECK,
    /// Read chip part ID
    IAP_READ_PART_ID,
    /// Read chip boot code version
    IAP_READ_BOOT_VER,
    /// Compare memory areas
    IAP_COMPARE,
    /// Jump into ISP bootloader
    IAP_REINVOKE_ISP,
    /// Read unique ID
    IAP_READ_UID,
    /// Erase page(s)
    IAP_ERASE_PAGE,
    /// Set which flash bank is active (some parts)
    IAP_SET_ACTIVE_FLASH_BANK,
}

impl IapCommandNum {
    /// The number by which the ROM knows the command.
    pub open spec fn spec_number(self) -> u32 {
        match self {
            IapCommandNum::IAP_INIT => 49,
            IapCommandNum::IAP_PREPARE => 50,
            IapCommandNum::IAP_COPY_RAM2FLASH => 51,
            IapCommandNum::IAP_ERASE => 52,
            IapCommandNum::IAP_BLANK_CHECK => 53,
            IapCommandNum::IAP_READ_PART_ID => 54,
            IapCommandNum::IAP_READ_BOOT_VER => 55,
            IapCommandNum::IAP_COMPARE => 56,
            IapCommandNum::IAP_REINVOKE_ISP => 57,
            IapCommandNum::IAP_READ_UID => 58,
            IapCommandNum::IAP_ERASE_PAGE => 59,
            IapCommandNum::IAP_SET_ACTIVE_FLASH_BANK => 60,
        }
    }

    /// The number by which the ROM knows the command.
    pub fn number(&self) -> (n: u32)
        ensures
            n == self.spec_number(),
    {
        match self {
            IapCommandNum::IAP_INIT => 49,
            IapCommandNum::IAP_PREPARE => 50,
            IapCommandNum::IAP_COPY_RAM2FLASH => 51,
            IapCommandNum::IAP_ERASE => 52,
            IapCommandNum::IAP_BLANK_CHECK => 53,
            IapCommandNum::IAP_READ_PART_ID => 54,
            IapCommandNum::IAP_READ_BOOT_VER => 55,
            IapCommandNum::IAP_COMPARE => 56,
            IapCommandNum::IAP_REINVOKE_ISP => 57,
            IapCommandNum::IAP_READ_UID => 58,
            IapCommandNum::IAP_ERASE_PAGE => 59,
            IapCommandNum::IAP_SET_ACTIVE_FLASH_BANK => 60,
        }
    }
}

/// Distinct commands have distinct numbers, and the numbers are the
/// consecutive range 49 to 60.
pub proof fn lemma_command_numbers_distinct(a: IapCommandNum, b: IapCommandNum)
    ensures
        a.spec_number() == b.spec_number() ==> a == b,
        49 <= a.spec_number() <= 60,
{
}

/// Status codes that the ROM returns in the first word of the result table.
#[derive(Clone, Copy, Debug, PartialEq, Eq, Structural)]
pub enum IapRetcode {
    CmdSuccess,
    InvalidCommand,
    SrcAddrError,
    DstAddrError,
    SrcAddrNotMapped,
    DstAddrNotMapped,
    CountError,
    InvalidSectorOrPage,
    SectorNotBlank,
    SectorNotPreparedForWriteOperation,
    CompareError,
    Busy,
    ParamError,
    AddrError,
    AddrNotMapped,
    CmdLocked,
    InvalidCode,
    InvalidBaudRate,
    InvalidStopBit,
    CodeReadProtectionEnabled,
    UserCodeChecksum,
    EfroNoPower,
    FlashNoPower,
    FlashEraseProgram,
    InvalidPage,
    FlashNoClock,
    ReinvokeIspConfig,
    NoValidImage,
    FailedToDecode,
}

impl IapRetcode {
    /// The raw status code of each return code.
    pub open spec fn spec_code(self) -> u32 {
        match self {
            IapRetcode::CmdSuccess => 0x0,
            IapRetcode::InvalidCommand => 0x01,
            IapRetcode::SrcAddrError => 0x02,
            IapRetcode::DstAddrError => 0x03,
            IapRetcode::SrcAddrNotMapped => 0x04,
            IapRetcode::DstAddrNotMapped => 0x05,
            IapRetcode::CountError => 0x06,
            IapRetcode::InvalidSectorOrPage => 0x07,
            IapRetcode::SectorNotBlank => 0x08,
            IapRetcode::SectorNotPreparedForWriteOperation => 0x09,
            IapRetcode::CompareError => 0x0a,
            IapRetcode::Busy => 0x0b,
            IapRetcode::ParamError => 0x0c,
            IapRetcode::AddrError => 0x0d,
            IapRetcode::AddrNotMapped => 0x0e,
            IapRetcode::CmdLocked => 0x0f,
            IapRetcode::InvalidCode => 0x10,
            IapRetcode::InvalidBaudRate => 0x11,
            IapRetcode::InvalidStopBit => 0x12,
            IapRetcode::CodeReadProtectionEnabled => 0x13,
            IapRetcode::UserCodeChecksum => 0x15,
            IapRetcode::EfroNoPower => 0x17,
            IapRetcode::FlashNoPower => 0x18,
            IapRetcode::FlashEraseProgram => 0x20,
            IapRetcode::InvalidPage => 0x21,
            IapRetcode::FlashNoClock => 0x1b,
            IapRetcode::ReinvokeIspConfig => 0x1c,
            IapRetcode::NoValidImage => 0x1d,
            IapRetcode::FailedToDecode => 0xff,
        }
    }

    /// The raw status code of this return code.
    pub fn code(&self) -> (c: u32)
        ensures
            c == self.spec_code(),
    {
        match self {
            IapRetcode::CmdSuccess => 0x0,
            IapRetcode::InvalidCommand => 0x01,
            IapRetcode::SrcAddrError => 0x02,
            IapRetcode::DstAddrError => 0x03,
            IapRetcode::SrcAddrNotMapped => 0x04,
            IapRetcode::DstAddrNotMapped => 0x05,
            IapRetcode::CountError => 0x06,
            IapRetcode::InvalidSectorOrPage => 0x07,
            IapRetcode::SectorNotBlank => 0x08,
            IapRetcode::SectorNotPreparedForWriteOperation => 0x09,
            IapRetcode::CompareError => 0x0a,
            IapRetcode::Busy => 0x0b,
            IapRetcode::ParamError => 0x0c,
            IapRetcode::AddrError => 0x0d,
            IapRetcode::AddrNotMapped => 0x0e,
            IapRetcode::CmdLocked => 0x0f,
            IapRetcode::InvalidCode => 0x10,
            IapRetcode::InvalidBaudRate => 0x11,
            IapRetcode::InvalidStopBit => 0x12,
            IapRetcode::CodeReadProtectionEnabled => 0x13,
            IapRetcode::UserCodeChecksum => 0x15,
            IapRetcode::EfroNoPower => 0x17,
            IapRetcode::FlashNoPower => 0x18,
            IapRetcode::FlashEraseProgram => 0x20,
            IapRetcode::InvalidPage => 0x21,
            IapRetcode::FlashNoClock => 0x1b,
            IapRetcode::ReinvokeIspConfig => 0x1c,
            IapRetcode::NoValidImage => 0x1d,
            IapRetcode::FailedToDecode => 0xff,
        }
    }
}

impl Default for IapRetcode {
    fn default() -> (r: Self)
        ensures
            r == IapRetcode::FailedToDecode,
    {
        IapRetcode::FailedToDecode
    }
}

/// Whether `e` is the raw code of some return code.
pub open spec fn is_retcode(e: u32) -> bool {
    exists|r: IapRetcode| r.spec_code() == e
}

/// The return code that a raw status decodes to: the one whose code it is,
/// and `FailedToDecode` for a status that is no known code.
pub open spec fn decoded_retcode(e: u32) -> IapRetcode {
    if is_retcode(e) {
        choose|r: IapRetcode| r.spec_code() == e
    } else {
        IapRetcode::FailedToDecode
    }
}

/// Distinct return codes have distinct raw codes.
pub proof fn lemma_retcode_codes_distinct(a: IapRetcode, b: IapRetcode)
    ensures
        a.spec_code() == b.spec_code() ==> a == b,
{
}

/// Decoding the raw code of a return code gives that return code back.
pub proof fn lemma_decode_code(r: IapRetcode)
    ensures
        is_retcode(r.spec_code()),
        decoded_retcode(r.spec_code()) == r,
{
    let c = choose|x: IapRetcode| x.spec_code() == r.spec_code();
    lemma_retcode_codes_distinct(c, r);
}

/// Each return code stands for the ROM status of the same name: its raw code
/// is that status, and that status decodes to it.
pub proof fn lemma_retcodes_are_rom_statuses()
    ensures
        IapRetcode::CmdSuccess.spec_code() == iap_retcode_raw::CMD_SUCCESS,
        decoded_retcode(iap_retcode_raw::CMD_SUCCESS) == IapRetcode::CmdSuccess,
        IapRetcode::InvalidCommand.spec_code() == iap_retcode_raw::INVALID_COMMAND,
        decoded_retcode(iap_retcode_raw::INVALID_COMMAND) == IapRetcode::InvalidCommand,
        IapRetcode::SrcAddrError.spec_code() == iap_retcode_raw::SRC_ADDR_ERROR,
        decoded_retcode(iap_retcode_raw::SRC_ADDR_ERROR) == IapRetcode::SrcAddrError,
        IapRetcode::DstAddrError.spec_code() == iap_retcode_raw::DST_ADDR_ERROR,
        decoded_retcode(iap_retcode_raw::DST_ADDR_ERROR) == IapRetcode::DstAddrError,
        IapRetcode::SrcAddrNotMapped.spec_code() == iap_retcode_raw::SRC_ADDR_NOT_MAPPED,
        decoded_retcode(iap_retcode_raw::SRC_ADDR_NOT_MAPPED) == IapRetcode::SrcAddrNotMapped,
        IapRetcode::DstAddrNotMapped.spec_code() == iap_retcode_raw::DST_ADDR_NOT_MAPPED,
        decoded_retcode(iap_retcode_raw::DST_ADDR_NOT_MAPPED) == IapRetcode::DstAddrNotMapped,
        IapRetcode::CountError.spec_code() == iap_retcode_raw::COUNT_ERROR,
        decoded_retcode(iap_retcode_raw::COUNT_ERROR) == IapRetcode::CountError,
        IapRetcode::InvalidSectorOrPage.spec_code() == iap_retcode_raw::INVALID_SECTOR_OR_PAGE,
        decoded_retcode(iap_retcode_raw::INVALID_SECTOR_OR_PAGE) == IapRetcode::InvalidSectorOrPage,
        IapRetcode::SectorNotBlank.spec_code() == iap_retcode_raw::SECTOR_NOT_BLANK,
        decoded_retcode(iap_retcode_raw::SECTOR_NOT_BLANK) == IapRetcode::SectorNotBlank,
        IapRetcode::SectorNotPreparedForWriteOperation.spec_code() == iap_retcode_raw::SECTOR_NOT_PREPARED_FOR_WRITE_OPERATION,
        decoded_retcode(iap_retcode_raw::SECTOR_NOT_PREPARED_FOR_WRITE_OPERATION) == IapRetcode::SectorNotPreparedForWriteOperation,
        IapRetcode::CompareError.spec_code() == iap_retcode_raw::COMPARE_ERROR,
        decoded_retcode(iap_retcode_raw::COMPARE_ERROR) == IapRetcode::CompareError,
        IapRetcode::Busy.spec_code() == iap_retcode_raw::BUSY,
        decoded_retcode(iap_retcode_raw::BUSY) == IapRetcode::Busy,
        IapRetcode::ParamError.spec_code() == iap_retcode_raw::PARAM_ERROR,
        decoded_retcode(iap_retcode_raw::PARAM_ERROR) == IapRetcode::ParamError,
        IapRetcode::AddrError.spec_code() == iap_retcode_raw::ADDR_ERROR,
        decoded_retcode(iap_retcode_raw::ADDR_ERROR) == IapRetcode::AddrError,
        IapRetcode::AddrNotMapped.spec_code() == iap_retcode_raw::ADDR_NOT_MAPPED,
        decoded_retcode(iap_retcode_raw::ADDR_NOT_MAPPED) == IapRetcode::AddrNotMapped,
        IapRetcode::CmdLocked.spec_code() == iap_retcode_raw::CMD_LOCKED,
        decoded_retcode(iap_retcode_raw::CMD_LOCKED) == IapRetcode::CmdLocked,
        IapRetcode::InvalidCode.spec_code() == iap_retcode_raw::INVALID_CODE,
        decoded_retcode(iap_retcode_raw::INVALID_CODE) == IapRetcode::InvalidCode,
        IapRetcode::InvalidBaudRate.spec_code() == iap_retcode_raw::INVALID_BAUD_RATE,
        decoded_retcode(iap_retcode_raw::INVALID_BAUD_RATE) == IapRetcode::InvalidBaudRate,
        IapRetcode::InvalidStopBit.spec_code() == iap_retcode_raw::INVALID_STOP_BIT,
        decoded_retcode(iap_retcode_raw::INVALID_STOP_BIT) == IapRetcode::InvalidStopBit,
        IapRetcode::CodeReadProtectionEnabled.spec_code() == iap_retcode_raw::CODE_READ_PROTECTION_ENABLED,
        decoded_retcode(iap_retcode_raw::CODE_READ_PROTECTION_ENABLED) == IapRetcode::CodeReadProtectionEnabled,
        IapRetcode::UserCodeChecksum.spec_code() == iap_retcode_raw::USER_CODE_CHECKSUM,
        decoded_retcode(iap_retcode_raw::USER_CODE_CHECKSUM) == IapRetcode::UserCodeChecksum,
        IapRetcode::EfroNoPower.spec_code() == iap_retcode_raw::EFRO_NO_POWER,
        decoded_retcode(iap_retcode_raw::EFRO_NO_POWER) == IapRetcode::EfroNoPower,
        IapRetcode::FlashNoPower.spec_code() == iap_retcode_raw::FLASH_NO_POWER,
        decoded_retcode(iap_retcode_raw::FLASH_NO_POWER) == IapRetcode::FlashNoPower,
        IapRetcode::FlashEraseProgram.spec_code() == iap_retcode_raw::FLASH_ERASE_PROGRAM,
        decoded_retcode(iap_retcode_raw::FLASH_ERASE_PROGRAM) == IapRetcode::FlashEraseProgram,
        IapRetcode::InvalidPage.spec_code() == iap_retcode_raw::INVALID_PAGE,
        decoded_retcode(iap_retcode_raw::INVALID_PAGE) == IapRetcode::InvalidPage,
        IapRetcode::FlashNoClock.spec_code() == iap_retcode_raw::FLASH_NO_CLOCK,
        decoded_retcode(iap_retcode_raw::FLASH_NO_CLOCK) == IapRetcode::FlashNoClock,
        IapRetcode::ReinvokeIspConfig.spec_code() == iap_retcode_raw::REINVOKE_ISP_CONFIG,
        decoded_retcode(iap_retcode_raw::REINVOKE_ISP_CONFIG) == IapRetcode::ReinvokeIspConfig,
        IapRetcode::NoValidImage.spec_code() == iap_retcode_raw::NO_VALID_IMAGE,
        decoded_retcode(iap_retcode_raw::NO_VALID_IMAGE) == IapRetcode::NoValidImage,
{
    lemma_decode_code(IapRetcode::CmdSuccess);
    lemma_decode_code(IapRetcode::InvalidCommand);
    lemma_decode_code(IapRetcode::SrcAddrError);
    lemma_decode_code(IapRetcode::DstAddrError);
    lemma_decode_code(IapRetcode::SrcAddrNotMapped);
    lemma_decode_code(IapRetcode::DstAddrNotMapped);
    lemma_decode_code(IapRetcode::CountError);
    lemma_decode_code(IapRetcode::InvalidSectorOrPage);
    lemma_decode_code(IapRetcode::SectorNotBlank);
    lemma_decode_code(IapRetcode::SectorNotPreparedForWriteOperation);
    lemma_decode_code(IapRetcode::CompareError);
    lemma_decode_code(IapRetcode::Busy);
    lemma_decode_code(IapRetcode::ParamError);
    lemma_decode_code(IapRetcode::AddrError);
    lemma_decode_code(IapRetcode::AddrNotMapped);
    lemma_decode_code(IapRetcode::CmdLocked);
    lemma_decode_code(IapRetcode::InvalidCode);
    lemma_decode_code(IapRetcode::InvalidBaudRate);
    lemma_decode_code(IapRetcode::InvalidStopBit);
    lemma_decode_code(IapRetcode::CodeReadProtectionEnabled);
    lemma_decode_code(IapRetcode::UserCodeChecksum);
    lemma_decode_code(IapRetcode::EfroNoPower);
    lemma_decode_code(IapRetcode::FlashNoPower);
    lemma_decode_code(IapRetcode::FlashEraseProgram);
    lemma_decode_code(IapRetcode::InvalidPage);
    lemma_decode_code(IapRetcode::FlashNoClock);
    lemma_decode_code(IapRetcode::ReinvokeIspConfig);
    lemma_decode_code(IapRetcode::NoValidImage);
}

/// Decode a raw IAP status into a return code; a status that is no known code
/// decodes to `FailedToDecode`.
pub fn err_decode(e: u32) -> (r: IapRetcode)
    ensures
        r == decoded_retcode(e),
{
    let r = match e {
        0x0 => IapRetcode::CmdSuccess,
        0x01 => IapRetcode::InvalidCommand,
        0x02 => IapRetcode::SrcAddrError,
        0x03 => IapRetcode::DstAddrError,
        0x04 => IapRetcode::SrcAddrNotMapped,
        0x05 => IapRetcode::DstAddrNotMapped,
        0x06 => IapRetcode::CountError,
        0x07 => IapRetcode::InvalidSectorOrPage,
        0x08 => IapRetcode::SectorNotBlank,
        0x09 => IapRetcode::SectorNotPreparedForWriteOperation,
        0x0a => IapRetcode::CompareError,
        0x0b => IapRetcode::Busy,
        0x0c => IapRetcode::ParamError,
        0x0d => IapRetcode::AddrError,
        0x0e => IapRetcode::AddrNotMapped,
        0x0f => IapRetcode::CmdLocked,
        0x10 => IapRetcode::InvalidCode,
        0x11 => IapRetcode::InvalidBaudRate,
        0x12 => IapRetcode::InvalidStopBit,
        0x13 => IapRetcode::CodeReadProtectionEnabled,
        0x15 => IapRetcode::UserCodeChecksum,
        0x17 => IapRetcode::EfroNoPower,
        0x18 => IapRetcode::FlashNoPower,
        0x20 => IapRetcode::FlashEraseProgram,
        0x21 => IapRetcode::InvalidPage,
        0x1b => IapRetcode::FlashNoClock,
        0x1c => IapRetcode::ReinvokeIspConfig,
        0x1d => IapRetcode::NoValidImage,
        _ => IapRetcode::FailedToDecode,
    };
    proof {
        if r != IapRetcode::FailedToDecode || e == 0xff {
            lemma_decode_code(r);
        } else {
            assert forall|x: IapRetcode| x.spec_code() != e by {}
        }
    }
    r
}

/// A command table: the command number and up to four parameters.
pub type IapCommand = [u32; 5];

/// A result table: the status word and up to four results.
pub type IapResult = [u32; 5];

/// The raw status that the ROM reports.
pub type Status = u32;

/// The status word of a successful command.
pub const K_STATUS_SUCCESS: u32 = 0;

/// Version of the boot code in the ROM.
pub struct BootcodeVersion {
    pub major: u32,
    pub minor: u32,
}

/// Build up a command+response pair: the command number followed by zeros, and
/// an all-zero result table.
pub fn command(num: IapCommandNum) -> (r: (IapCommand, IapResult))
    ensures
        r.0@ == seq![num.spec_number(), 0u32, 0u32, 0u32, 0u32],
        r.1@ == seq![0u32, 0u32, 0u32, 0u32, 0u32],
{
    let cmd: IapCommand = [num.number(), 0, 0, 0, 0];
    let result: IapResult = [0, 0, 0, 0, 0];
    (cmd, result)
}

/// The outcome of a ROM call, read from its result table: success when the
/// status word is `K_STATUS_SUCCESS`, the status word as error otherwise.
pub open spec fn spec_status(result: Seq<u32>) -> Result<(), Status> {
    if result[0] == K_STATUS_SUCCESS {
        Ok(())
    } else {
        Err(result[0])
    }
}

/// The outcome of a ROM call, read from its result table.
pub fn iap_status(result: &IapResult) -> (r: Result<(), Status>)
    ensures
        r == spec_status(result@),
{
    if result[0] == K_STATUS_SUCCESS {
        Ok(())
    } else {
        Err(result[0])
    }
}

/// The part ID in the result table of `IAP_READ_PART_ID`.
pub fn part_id_from_result(result: &IapResult) -> (r: Result<u32, Status>)
    ensures
        r == (match spec_status(result@) {
            Ok(()) => Ok::<u32, Status>(result@[1]),
            Err(e) => Err(e),
        }),
{
    iap_status(result)?;
    Ok(result[1])
}

/// The boot code version in the result table of `IAP_READ_BOOT_VER`: word 1
/// is the major version, word 2 the minor version.
pub fn boot_code_version_from_result(result: &IapResult) -> (r: Result<BootcodeVersion, Status>)
    ensures
        match spec_status(result@) {
            Ok(()) => r matches Ok(v) && v.major == result@[1] && v.minor == result@[2],
            Err(e) => r matches Err(f) && f == e,
        },
{
    iap_status(result)?;
    Ok(BootcodeVersion { major: result[1], minor: result[2] })
}

/// The unique identification in the result table of `IAP_READ_UID`: words 1 to 4.
pub fn unique_id_from_result(result: &IapResult) -> (r: Result<(u32, u32, u32, u32), Status>)
    ensures
        r == (match spec_status(result@) {
            Ok(()) => Ok::<(u32, u32, u32, u32), Status>(
                (result@[1], result@[2], result@[3], result@[4]),
            ),
            Err(e) => Err(e),
        }),
{
    iap_status(result)?;
    Ok((result[1], result[2], result[3], result[4]))
}

/// Command table of "prepare sector(s) for write operation".  This must be run
/// before copying RAM to flash and before erasing; the end sector must not be
/// below the start sector.
pub fn prepare_sector_for_write_command(start_sector: u32, end_sector: u32) -> (r: (IapCommand, IapResult))
    ensures
        r.0@ == seq![IapCommandNum::IAP_PREPARE.spec_number(), start_sector, end_sector, 0u32, 0u32],
        r.1@ == seq![0u32, 0u32, 0u32, 0u32, 0u32],
{
    let (mut cmd, result) = command(IapCommandNum::IAP_PREPARE);
    cmd[1] = start_sector;
    cmd[2] = end_sector;
    (cmd, result)
}

/// Command table of "copy RAM to flash": `src_addr` and `len` describe the
/// buffer in RAM; the clock is in kilohertz, and ignored by chips whose flash
/// controller has a fixed reference clock.
pub fn copy_ram_to_flash_command(dst_addr: u32, src_addr: u32, len: u32, system_core_clock_khz: u32) -> (r: (IapCommand, IapResult))
    ensures
        r.0@ == seq![IapCommandNum::IAP_COPY_RAM2FLASH.spec_number(), dst_addr, src_addr, len, system_core_clock_khz],
        r.1@ == seq![0u32, 0u32, 0u32, 0u32, 0u32],
{
    let (mut cmd, result) = command(IapCommandNum::IAP_COPY_RAM2FLASH);
    cmd[1] = dst_addr;
    cmd[2] = src_addr;
    cmd[3] = len;
    cmd[4] = system_core_clock_khz;
    (cmd, result)
}

/// Command table of "compare": the flash at `dst_addr` with the RAM buffer
/// `src_addr`, `len`; the clock is in kilohertz.
pub fn compare_command(dst_addr: u32, src_addr: u32, len: u32, system_core_clock_khz: u32) -> (r: (IapCommand, IapResult))
    ensures
        r.0@ == seq![IapCommandNum::IAP_COMPARE.spec_number(), dst_addr, src_addr, len, system_core_clock_khz],
        r.1@ == seq![0u32, 0u32, 0u32, 0u32, 0u32],
{
    let (mut cmd, result) = command(IapCommandNum::IAP_COMPARE);
    cmd[1] = dst_addr;
    cmd[2] = src_addr;
    cmd[3] = len;
    cmd[4] = system_core_clock_khz;
    (cmd, result)
}

/// Command table of "erase sector(s)"; the clock is in kilohertz.
pub fn erase_sector_command(start_sector: u32, end_sector: u32, system_core_clock_khz: u32) -> (r: (IapCommand, IapResult))
    ensures
        r.0@ == seq![IapCommandNum::IAP_ERASE.spec_number(), start_sector, end_sector, system_core_clock_khz, 0u32],
        r.1@ == seq![0u32, 0u32, 0u32, 0u32, 0u32],
{
    let (mut cmd, result) = command(IapCommandNum::IAP_ERASE);
    cmd[1] = start_sector;
    cmd[2] = end_sector;
    cmd[3] = system_core_clock_khz;
    (cmd, result)
}

/// Command table of "erase page(s)"; the clock is in kilohertz.
pub fn erase_page_command(start_page: u32, end_page: u32, system_core_clock_khz: u32) -> (r: (IapCommand, IapResult))
    ensures
        r.0@ == seq![IapCommandNum::IAP_ERASE_PAGE.spec_number(), start_page, end_page, system_core_clock_khz, 0u32],
        r.1@ == seq![0u32, 0u32, 0u32, 0u32, 0u32],
{
    let (mut cmd, result) = command(IapCommandNum::IAP_ERASE_PAGE);
    cmd[1] = start_page;
    cmd[2] = end_page;
    cmd[3] = system_core_clock_khz;
    (cmd, result)
}

/// Command table of "blank check sector(s)".
pub fn blank_check_sector_command(start_sector: u32, end_sector: u32) -> (r: (IapCommand, IapResult))
    ensures
        r.0@ == seq![IapCommandNum::IAP_BLANK_CHECK.spec_number(), start_sector, end_sector, 0u32, 0u32],
        r.1@ == seq![0u32, 0u32, 0u32, 0u32, 0u32],
{
    let (mut cmd, result) = command(IapCommandNum::IAP_BLANK_CHECK);
    cmd[1] = start_sector;
    cmd[2] = end_sector;
    (cmd, result)
}

} // verus!

verus! {

/// What the library needs to know of a chip to talk to its IAP ROM and to map
/// flash addresses to sectors.
pub trait Iap: Sized {
    /// The address of the chip's IAP entry point.
    spec fn spec_iap_address(&self) -> usize;

    /// The flash sector that holds `addr`.
    spec fn spec_addr_to_sector(&self, addr: u32) -> u32;

    fn iap_address(&self) -> (a: usize)
        ensures
            a == self.spec_iap_address(),
    ;

    fn addr_to_sector(&self, addr: u32) -> (s: u32)
        ensures
            s == self.spec_addr_to_sector(addr),
    ;
}

} // verus!
