use lpc_iap::iap::Iap;
use lpc_iap::{lpc11xx, lpc13xx, lpc1549, lpc1788, lpc43xx, lpc81x};

#[test]
fn lpc11xx_sectors_are_1k_units() {
    let chip = lpc11xx::Chip::new();
    assert_eq!(chip.iap_address(), 0x1FFF1FF1);
    assert_eq!(chip.addr_to_sector(0), 0);
    assert_eq!(chip.addr_to_sector(0x3ff), 0);
    assert_eq!(chip.addr_to_sector(0x400), 1);
    assert_eq!(chip.addr_to_sector(0x1000), 4);
    assert_eq!(chip.addr_to_sector(0x7fff), 31);
}

#[test]
fn lpc13xx_sectors_are_4k() {
    let chip = lpc13xx::Chip::new();
    assert_eq!(chip.iap_address(), 0x1FFF1FF1);
    assert_eq!(chip.addr_to_sector(0xfff), 0);
    assert_eq!(chip.addr_to_sector(0x1000), 1);
    assert_eq!(chip.addr_to_sector(0x1ffff), 31);
}

#[test]
fn lpc1549_sectors_are_4k() {
    let chip = lpc1549::Lpc1549::new();
    assert_eq!(chip.iap_address(), 0x03000205);
    assert_eq!(chip.addr_to_sector(0x1000), 1);
    assert_eq!(chip.addr_to_sector(0x3_f000), 63);
}

#[test]
fn lpc1788_small_then_large_sectors() {
    let chip = lpc1788::Chip::new();
    assert_eq!(chip.iap_address(), 0x1fff1ff1);
    assert_eq!(chip.addr_to_sector(0x0), 0);
    assert_eq!(chip.addr_to_sector(0xf000), 15);
    assert_eq!(chip.addr_to_sector(0xffff), 15);
    assert_eq!(chip.addr_to_sector(0x10000), 16);
    assert_eq!(chip.addr_to_sector(0x17fff), 16);
    assert_eq!(chip.addr_to_sector(0x18000), 17);
    assert_eq!(chip.addr_to_sector(0x7ffff), 29);
}

#[test]
fn lpc43xx_bank_a_sectors() {
    let chip = lpc43xx::Chip::from_iap_address(0x1040_0f01);
    assert_eq!(chip.iap_address(), 0x1040_0f01);
    assert_eq!(chip.addr_to_sector(0x1A00_0000), 0);
    assert_eq!(chip.addr_to_sector(0x1A00_2000), 1);
    assert_eq!(chip.addr_to_sector(0x1A00_dfff), 6);
    assert_eq!(chip.addr_to_sector(0x1A00_e000), 7);
    assert_eq!(chip.addr_to_sector(0x1A00_ffff), 7);
    assert_eq!(chip.addr_to_sector(0x1A01_0000), 8);
    assert_eq!(chip.addr_to_sector(0x1A02_0000), 9);
    assert_eq!(chip.addr_to_sector(0x1A07_ffff), 14);
}

#[test]
fn lpc81x_sectors_are_1k() {
    let chip = lpc81x::Chip::new();
    assert_eq!(chip.iap_address(), 0x1FFF_1FF1);
    assert_eq!(chip.addr_to_sector(0x3ff), 0);
    assert_eq!(chip.addr_to_sector(0x400), 1);
    assert_eq!(chip.addr_to_sector(0x3c00), 15);
}

#[test]
fn chip_constants() {
    assert_eq!(lpc11xx::CHIP_NAME, "lpc111x");
    assert_eq!(lpc13xx::CHIP_NAME, "lpc13xx");
    assert_eq!(lpc43xx::CHIP_NAME, "lpc43xx");
    assert_eq!(lpc1788::SECTOR_ADDR_2, 0x10000);
    assert_eq!(lpc43xx::IAP_ENTRY_ADDRESS, 0x10400100);
}
