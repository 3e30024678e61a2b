use lpc_iap::flash_algo::{
    unchecked_erase_ops, unchecked_program_ops, LPC15XX_DEFAULT_SYSTEM_CLK_KHZ, LPC15XX_ERASE_SECTOR_FAILED,
};
use lpc_iap::flash_algo::{
    EraseSectors, EraseStage, FlashOp, Next, ProgramErrorCodes, ProgramPage, ProgramStage,
    ERASE_SECTOR_FAILED, LPC15XX_ERASE_ALL_FAILED, LPC15XX_LAST_SECTOR,
};
use lpc_iap::iap::iap_retcode_raw::{COMPARE_ERROR, SECTOR_NOT_BLANK};
use lpc_iap::{lpc13xx, lpc1788};

#[test]
fn erase_skips_blank_sectors() {
    let mut m = EraseSectors::new(3, 3, 12_000, true, ERASE_SECTOR_FAILED);
    assert_eq!(m.first_op(), FlashOp::BlankCheck { start_sector: 3, end_sector: 3 });
    assert_eq!(m.advance(Ok(())), Next::Finish(Ok(())));
    assert_eq!(m.stage, EraseStage::Finished);
}

#[test]
fn erase_full_sequence_with_verification() {
    let mut m = EraseSectors::new(3, 4, 12_000, true, ERASE_SECTOR_FAILED);
    assert_eq!(
        m.advance(Err(SECTOR_NOT_BLANK)),
        Next::Run(FlashOp::Prepare { start_sector: 3, end_sector: 4 })
    );
    assert_eq!(
        m.advance(Ok(())),
        Next::Run(FlashOp::Erase { start_sector: 3, end_sector: 4, clock_khz: 12_000 })
    );
    assert_eq!(m.advance(Ok(())), Next::Run(FlashOp::BlankCheck { start_sector: 3, end_sector: 4 }));
    assert_eq!(m.advance(Ok(())), Next::Finish(Ok(())));
}

#[test]
fn erase_without_verification_ends_after_erase() {
    let mut m = EraseSectors::new(0, 0, 12_000, false, ERASE_SECTOR_FAILED);
    m.advance(Err(SECTOR_NOT_BLANK));
    m.advance(Ok(()));
    assert_eq!(m.advance(Ok(())), Next::Finish(Ok(())));
}

#[test]
fn erase_ignores_other_blank_check_failures() {
    let mut m = EraseSectors::new(0, 7, 12_000, true, 1);
    assert_eq!(m.advance(Err(0x18)), Next::Finish(Ok(())));
}

#[test]
fn erase_failures_report_failure_code() {
    let mut m = EraseSectors::new(0, LPC15XX_LAST_SECTOR, 12_000_000, true, LPC15XX_ERASE_ALL_FAILED);
    m.advance(Err(SECTOR_NOT_BLANK));
    assert_eq!(m.advance(Err(9)), Next::Finish(Err(0x70d1)));

    let mut m = EraseSectors::new(1, 1, 12_000, true, ERASE_SECTOR_FAILED);
    m.advance(Err(SECTOR_NOT_BLANK));
    m.advance(Ok(()));
    assert_eq!(m.advance(Err(0x20)), Next::Finish(Err(2)));

    let mut m = EraseSectors::new(1, 1, 12_000, true, ERASE_SECTOR_FAILED);
    m.advance(Err(SECTOR_NOT_BLANK));
    m.advance(Ok(()));
    m.advance(Ok(()));
    assert_eq!(m.advance(Err(SECTOR_NOT_BLANK)), Next::Finish(Err(2)));
}

#[test]
fn erase_for_address_uses_chip_sector() {
    let chip = lpc1788::Chip::new();
    let m = EraseSectors::for_address(&chip, 0x18000, 12_000, false, 2);
    assert_eq!(m.start_sector, 17);
    assert_eq!(m.end_sector, 17);
    assert_eq!(m.first_op(), FlashOp::BlankCheck { start_sector: 17, end_sector: 17 });
}

#[test]
fn program_page_success() {
    let chip = lpc13xx::Chip::new();
    let mut m = ProgramPage::new(&chip, 0x1f00, 256, 12_000, ProgramErrorCodes::standard());
    assert_eq!(m.start_sector, 1);
    assert_eq!(m.end_sector, 2);
    assert_eq!(m.first_op(), FlashOp::Prepare { start_sector: 1, end_sector: 2 });
    assert_eq!(
        m.advance(Ok(())),
        Next::Run(FlashOp::CopyRamToFlash { dst_addr: 0x1f00, clock_khz: 12_000 })
    );
    assert_eq!(m.advance(Ok(())), Next::Run(FlashOp::Compare { dst_addr: 0x1f00, clock_khz: 12_000 }));
    assert_eq!(m.advance(Ok(())), Next::Finish(Ok(())));
    assert_eq!(m.stage, ProgramStage::Finished);
}

#[test]
fn program_page_failure_codes() {
    let chip = lpc13xx::Chip::new();
    let mut m = ProgramPage::new(&chip, 0, 256, 12_000, ProgramErrorCodes::standard());
    assert_eq!(m.advance(Err(9)), Next::Finish(Err(3)));

    let mut m = ProgramPage::new(&chip, 0, 256, 12_000, ProgramErrorCodes::standard());
    m.advance(Ok(()));
    assert_eq!(m.advance(Err(2)), Next::Finish(Err(4)));

    let mut m = ProgramPage::new(&chip, 0, 256, 12_000, ProgramErrorCodes::standard());
    m.advance(Ok(()));
    m.advance(Ok(()));
    assert_eq!(m.advance(Err(COMPARE_ERROR)), Next::Finish(Err(4)));

    let mut m = ProgramPage::new(&chip, 0, 256, 12_000, ProgramErrorCodes::standard());
    m.advance(Ok(()));
    m.advance(Ok(()));
    assert_eq!(m.advance(Err(0x0b)), Next::Finish(Err(5)));
}

#[test]
fn program_page_lpc15xx_codes() {
    let chip = lpc_iap::lpc1549::Lpc1549::new();
    let codes = ProgramErrorCodes::lpc15xx();
    let mut m = ProgramPage::new(&chip, 0x400, 1024, 12_000_000, codes);
    assert_eq!(m.advance(Err(9)), Next::Finish(Err(0x70d4)));
    let mut m = ProgramPage::new(&chip, 0x400, 1024, 12_000_000, codes);
    m.advance(Ok(()));
    assert_eq!(m.advance(Err(1)), Next::Finish(Err(0x70d5)));
    let mut m = ProgramPage::new(&chip, 0x400, 1024, 12_000_000, codes);
    m.advance(Ok(()));
    m.advance(Ok(()));
    assert_eq!(m.advance(Err(10)), Next::Finish(Err(0x70d6)));
    let mut m = ProgramPage::new(&chip, 0x400, 1024, 12_000_000, codes);
    m.advance(Ok(()));
    m.advance(Ok(()));
    assert_eq!(m.advance(Err(11)), Next::Finish(Err(0x70d7)));
}

#[test]
fn lpc15xx_clock_is_in_khz() {
    assert_eq!(LPC15XX_DEFAULT_SYSTEM_CLK_KHZ, 12_000);
    let chip = lpc_iap::lpc1549::Lpc1549::new();
    let mut m = EraseSectors::for_address(&chip, 0x2000, LPC15XX_DEFAULT_SYSTEM_CLK_KHZ, true, LPC15XX_ERASE_SECTOR_FAILED);
    m.advance(Err(SECTOR_NOT_BLANK));
    assert_eq!(
        m.advance(Ok(())),
        Next::Run(FlashOp::Erase { start_sector: 2, end_sector: 2, clock_khz: 12_000 })
    );
}

#[test]
fn lpc81x_unchecked_sequences() {
    assert_eq!(
        unchecked_erase_ops(5, 12_000),
        [
            FlashOp::Prepare { start_sector: 5, end_sector: 5 },
            FlashOp::Erase { start_sector: 5, end_sector: 5, clock_khz: 12_000 },
        ]
    );
    let chip = lpc_iap::lpc81x::Chip::new();
    assert_eq!(
        unchecked_program_ops(&chip, 0xc40, 12_000),
        [
            FlashOp::Prepare { start_sector: 3, end_sector: 3 },
            FlashOp::CopyRamToFlash { dst_addr: 0xc40, clock_khz: 12_000 },
        ]
    );
}
