use lpc_iap::iap::{
    blank_check_sector_command, boot_code_version_from_result, command, compare_command,
    copy_ram_to_flash_command, erase_page_command, erase_sector_command, err_decode, iap_retcode_raw,
    iap_status, part_id_from_result, prepare_sector_for_write_command, unique_id_from_result,
    IapCommandNum, IapRetcode,
};
use lpc_iap::{crp_level, CrpLevel};

#[test]
fn command_sets_number_and_zeros() {
    let (cmd, result) = command(IapCommandNum::IAP_PREPARE);
    assert_eq!(cmd, [50, 0, 0, 0, 0]);
    assert_eq!(result, [0, 0, 0, 0, 0]);
    let (cmd, _) = command(IapCommandNum::IAP_INIT);
    assert_eq!(cmd, [49, 0, 0, 0, 0]);
    let (cmd, _) = command(IapCommandNum::IAP_SET_ACTIVE_FLASH_BANK);
    assert_eq!(cmd, [60, 0, 0, 0, 0]);
}

#[test]
fn command_numbers() {
    assert_eq!(IapCommandNum::IAP_COPY_RAM2FLASH.number(), 51);
    assert_eq!(IapCommandNum::IAP_ERASE.number(), 52);
    assert_eq!(IapCommandNum::IAP_BLANK_CHECK.number(), 53);
    assert_eq!(IapCommandNum::IAP_READ_PART_ID.number(), 54);
    assert_eq!(IapCommandNum::IAP_READ_BOOT_VER.number(), 55);
    assert_eq!(IapCommandNum::IAP_COMPARE.number(), 56);
    assert_eq!(IapCommandNum::IAP_REINVOKE_ISP.number(), 57);
    assert_eq!(IapCommandNum::IAP_READ_UID.number(), 58);
    assert_eq!(IapCommandNum::IAP_ERASE_PAGE.number(), 59);
}

#[test]
fn err_decode_known_codes() {
    assert_eq!(err_decode(0), IapRetcode::CmdSuccess);
    assert_eq!(err_decode(iap_retcode_raw::SECTOR_NOT_BLANK), IapRetcode::SectorNotBlank);
    assert_eq!(err_decode(iap_retcode_raw::COMPARE_ERROR), IapRetcode::CompareError);
    assert_eq!(err_decode(0x21), IapRetcode::InvalidPage);
    assert_eq!(err_decode(0x1b), IapRetcode::FlashNoClock);
    assert_eq!(err_decode(0x1d), IapRetcode::NoValidImage);
}

#[test]
fn err_decode_unknown_codes() {
    assert_eq!(err_decode(0x14), IapRetcode::FailedToDecode);
    assert_eq!(err_decode(0x16), IapRetcode::FailedToDecode);
    assert_eq!(err_decode(0xff), IapRetcode::FailedToDecode);
    assert_eq!(err_decode(0x108), IapRetcode::FailedToDecode);
    assert_eq!(err_decode(u32::MAX), IapRetcode::FailedToDecode);
}

#[test]
fn err_decode_round_trips_every_code() {
    let all = [
        IapRetcode::CmdSuccess,
        IapRetcode::InvalidCommand,
        IapRetcode::SrcAddrError,
        IapRetcode::DstAddrError,
        IapRetcode::SrcAddrNotMapped,
        IapRetcode::DstAddrNotMapped,
        IapRetcode::CountError,
        IapRetcode::InvalidSectorOrPage,
        IapRetcode::SectorNotBlank,
        IapRetcode::SectorNotPreparedForWriteOperation,
        IapRetcode::CompareError,
        IapRetcode::Busy,
        IapRetcode::ParamError,
        IapRetcode::AddrError,
        IapRetcode::AddrNotMapped,
        IapRetcode::CmdLocked,
        IapRetcode::InvalidCode,
        IapRetcode::InvalidBaudRate,
        IapRetcode::InvalidStopBit,
        IapRetcode::CodeReadProtectionEnabled,
        IapRetcode::UserCodeChecksum,
        IapRetcode::EfroNoPower,
        IapRetcode::FlashNoPower,
        IapRetcode::FlashEraseProgram,
        IapRetcode::InvalidPage,
        IapRetcode::FlashNoClock,
        IapRetcode::ReinvokeIspConfig,
        IapRetcode::NoValidImage,
        IapRetcode::FailedToDecode,
    ];
    for r in all {
        assert_eq!(err_decode(r.code()), r);
    }
}

#[test]
fn retcode_default_is_failed_to_decode() {
    assert_eq!(IapRetcode::default(), IapRetcode::FailedToDecode);
}

#[test]
fn status_of_result_table() {
    assert_eq!(iap_status(&[0, 1, 2, 3, 4]), Ok(()));
    assert_eq!(iap_status(&[8, 0, 0, 0, 0]), Err(8));
}

#[test]
fn part_id_read_from_word_one() {
    assert_eq!(part_id_from_result(&[0, 0x2540_102B, 7, 7, 7]), Ok(0x2540_102B));
    assert_eq!(part_id_from_result(&[0x0b, 0x2540_102B, 7, 7, 7]), Err(0x0b));
}

#[test]
fn boot_code_version_major_then_minor() {
    let v = boot_code_version_from_result(&[0, 13, 2, 0, 0]).ok().unwrap();
    assert_eq!(v.major, 13);
    assert_eq!(v.minor, 2);
    assert!(matches!(boot_code_version_from_result(&[1, 13, 2, 0, 0]), Err(1)));
}

#[test]
fn unique_id_words_one_to_four() {
    assert_eq!(unique_id_from_result(&[0, 1, 2, 3, 4]), Ok((1, 2, 3, 4)));
    assert_eq!(unique_id_from_result(&[0x13, 1, 2, 3, 4]), Err(0x13));
}

#[test]
fn command_tables_of_operations() {
    assert_eq!(prepare_sector_for_write_command(2, 5).0, [50, 2, 5, 0, 0]);
    assert_eq!(
        copy_ram_to_flash_command(0x1000, 0x1000_0000, 256, 12_000).0,
        [51, 0x1000, 0x1000_0000, 256, 12_000]
    );
    assert_eq!(compare_command(0x1000, 0x1000_0000, 256, 12_000).0, [56, 0x1000, 0x1000_0000, 256, 12_000]);
    assert_eq!(erase_sector_command(1, 3, 12_000).0, [52, 1, 3, 12_000, 0]);
    assert_eq!(erase_page_command(4, 9, 12_000).0, [59, 4, 9, 12_000, 0]);
    assert_eq!(blank_check_sector_command(0, 7).0, [53, 0, 7, 0, 0]);
    assert_eq!(blank_check_sector_command(0, 7).1, [0; 5]);
}

#[test]
fn crp_levels() {
    assert_eq!(crp_level(0x4e69_7370), CrpLevel::NoIsp);
    assert_eq!(crp_level(0x1234_5678), CrpLevel::Crp1);
    assert_eq!(crp_level(0x8765_4321), CrpLevel::Crp2);
    assert_eq!(crp_level(0x4321_8765), CrpLevel::Crp3);
    assert_eq!(crp_level(0xffff_ffff), CrpLevel::NoCrp);
    assert_eq!(crp_level(0), CrpLevel::NoCrp);
}
