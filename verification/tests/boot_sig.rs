use lpc_iap::boot_sig::generate_boot_sig;

fn word(data: &[u8], i: usize) -> u32 {
    u32::from_le_bytes([data[4 * i], data[4 * i + 1], data[4 * i + 2], data[4 * i + 3]])
}

#[test]
fn boot_sig_is_negated_sum() {
    let mut data = [0u8; 64];
    for i in 0..7 {
        data[4 * i..4 * i + 4].copy_from_slice(&((i as u32) + 1).to_le_bytes());
    }
    data[40] = 0x55;
    generate_boot_sig(&mut data, 0);
    assert_eq!(&data[0x1c..0x20], &[0xe4, 0xff, 0xff, 0xff]);
    assert_eq!(word(&data, 7), 0xffff_ffe4);
    assert_eq!(data[40], 0x55);
}

#[test]
fn boot_sig_words_sum_to_zero() {
    let mut data: Vec<u8> = (0..256u32).map(|i| (i * 37 + 11) as u8).collect();
    generate_boot_sig(&mut data, 0);
    let mut sum: u32 = 0;
    for i in 0..8 {
        sum = sum.wrapping_add(word(&data, i));
    }
    assert_eq!(sum, 0);
}

#[test]
fn boot_sig_of_zero_vectors_is_zero() {
    let mut data = [0u8; 32];
    data[0x1c] = 9;
    generate_boot_sig(&mut data, 0);
    assert_eq!(data, [0u8; 32]);
}

#[test]
fn boot_sig_only_at_address_zero() {
    let mut data = [7u8; 32];
    generate_boot_sig(&mut data, 0x400);
    assert_eq!(data, [7u8; 32]);
    let mut short = [1u8; 4];
    generate_boot_sig(&mut short, 0x1000);
    assert_eq!(short, [1u8; 4]);
}
