//! The boot signature of LPC17xx/LPC178x images.
//!
//! The boot ROM accepts user code only when the first eight 32-bit words of
//! flash (the start of the vector table) add up to zero; word 7 is reserved
//! for the two's complement of the sum of the other seven.
use vstd::prelude::*;

verus! {

/// Little-endian 32-bit word `i` of the byte sequence `s`.
pub open spec fn le_word(s: Seq<u8>, i: int) -> int {
    s[4 * i] + s[4 * i + 1] * 0x100 + s[4 * i + 2] * 0x1_0000 + s[4 * i + 3] * 0x100_0000
}

/// Sum of the first `n` little-endian words of `s`.
pub open spec fn vector_sum(s: Seq<u8>, n: nat) -> int
    decreases n,
{
    if n == 0 {
        0
    } else {
        vector_sum(s, (n - 1) as nat) + le_word(s, n - 1)
    }
}

/// The word that makes the first eight words add up to zero modulo 2^32.
pub open spec fn boot_checksum(s: Seq<u8>) -> int {
    (0x1_0000_0000 - vector_sum(s, 7) % 0x1_0000_0000) % 0x1_0000_0000
}

/// `s` with the checksum written little-endian into bytes 0x1c to 0x1f.
pub open spec fn with_boot_checksum(s: Seq<u8>) -> Seq<u8> {
    let c = boot_checksum(s);
    s.update(0x1c, (c % 0x100) as u8).update(0x1d, (c / 0x100 % 0x100) as u8).update(
        0x1e,
        (c / 0x1_0000 % 0x100) as u8,
    ).update(0x1f, (c / 0x100_0000 % 0x100) as u8)
}

proof fn lemma_vector_sum_prefix(s: Seq<u8>, t: Seq<u8>, n: nat)
    requires
        4 * n <= s.len(),
        4 * n <= t.len(),
        forall|k: int| 0 <= k < 4 * n ==> s[k] == t[k],
    ensures
        vector_sum(s, n) == vector_sum(t, n),
    decreases n,
{
    if n > 0 {
        lemma_vector_sum_prefix(s, t, (n - 1) as nat);
    }
}

proof fn lemma_vector_sum_bounds(s: Seq<u8>, n: nat)
    requires
        4 * n <= s.len(),
    ensures
        0 <= vector_sum(s, n) <= n * 0xffff_ffff,
    decreases n,
{
    if n > 0 {
        lemma_vector_sum_bounds(s, (n - 1) as nat);
    }
}

/// With the checksum in place, the first eight words of the image add up to
/// zero modulo 2^32, and the first seven are those of the image as given.
pub proof fn lemma_boot_sig_sums_to_zero(s: Seq<u8>)
    requires
        s.len() >= 32,
    ensures
        vector_sum(with_boot_checksum(s), 8) % 0x1_0000_0000 == 0,
        vector_sum(with_boot_checksum(s), 7) == vector_sum(s, 7),
        with_boot_checksum(s).len() == s.len(),
{
    let t = with_boot_checksum(s);
    let c = boot_checksum(s);
    lemma_vector_sum_prefix(s, t, 7);
    lemma_vector_sum_bounds(s, 7);
    assert(0 <= c < 0x1_0000_0000);
    assert(le_word(t, 7) == c) by (nonlinear_arith)
        requires
            t[28] == (c % 0x100) as u8,
            t[29] == (c / 0x100 % 0x100) as u8,
            t[30] == (c / 0x1_0000 % 0x100) as u8,
            t[31] == (c / 0x100_0000 % 0x100) as u8,
            0 <= c < 0x1_0000_0000,
            le_word(t, 7) == t[28] + t[29] * 0x100 + t[30] * 0x1_0000 + t[31] * 0x100_0000,
    ;
    let v = vector_sum(s, 7);
    assert((v + (0x1_0000_0000 - v % 0x1_0000_0000) % 0x1_0000_0000) % 0x1_0000_0000 == 0) by (nonlinear_arith)
        requires
            v >= 0,
    ;
}

/// Write the boot signature into an image that starts at flash address 0:
/// word 7 becomes the two's complement of the sum of words 0 to 6.  Images
/// for other addresses stay as they are.
pub fn generate_boot_sig(data: &mut [u8], addr: u32)
    requires
        addr == 0 ==> old(data)@.len() >= 32,
    ensures
        addr != 0 ==> final(data)@ == old(data)@,
        addr == 0 ==> final(data)@ == with_boot_checksum(old(data)@),
{
    if addr == 0 {
        let mut checksum: u32 = 0;
        let mut i: usize = 0;
        while i < 7
            invariant
                i <= 7,
                data@.len() >= 32,
                checksum == vector_sum(data@, i as nat) % 0x1_0000_0000,
            decreases 7 - i,
        {
            let j: usize = i * 4;
            let val: u32 = data[j] as u32 + data[j + 1] as u32 * 0x100 + data[j + 2] as u32 * 0x1_0000
                + data[j + 3] as u32 * 0x100_0000;
            assert(val == le_word(data@, i as int));
            checksum = checksum.wrapping_add(val);
            i = i + 1;
        }
        let checksum = 0u32.wrapping_sub(checksum);
        assert(checksum == boot_checksum(data@));
        data[0x1c] = (checksum % 0x100) as u8;
        data[0x1c + 1] = (checksum / 0x100 % 0x100) as u8;
        data[0x1c + 2] = (checksum / 0x1_0000 % 0x100) as u8;
        data[0x1c + 3] = (checksum / 0x100_0000 % 0x100) as u8;
    }
}

} // verus!
