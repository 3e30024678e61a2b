//! Hexadecimal text: the lower-case digits that the flash algorithms print,
//! the upper-case numbers of the generated target description, and the
//! reading of `0x`-prefixed numbers.  Text is handled as ASCII bytes.
use vstd::prelude::*;

verus! {

/// The ASCII lower-case hex digit of `d` (0 to 15).
pub open spec fn lower_hex_digit(d: u8) -> u8 {
    if d < 10 {
        (48 + d) as u8
    } else {
        (87 + d) as u8
    }
}

/// The ASCII upper-case hex digit of `d` (0 to 15).
pub open spec fn upper_hex_digit(d: int) -> u8 {
    if d < 10 {
        (48 + d) as u8
    } else {
        (55 + d) as u8
    }
}

/// Whether `c` is an ASCII hex digit of either case.
pub open spec fn is_hex_digit(c: u8) -> bool {
    (48 <= c <= 57) || (65 <= c <= 70) || (97 <= c <= 102)
}

/// The value of the ASCII hex digit `c`.
pub open spec fn hex_digit_value(c: u8) -> int {
    if c <= 57 {
        c - 48
    } else if c <= 70 {
        c - 55
    } else {
        c - 87
    }
}

/// The number that the hex digits `s` spell, most significant first.
pub open spec fn hex_value(s: Seq<u8>) -> int
    decreases s.len(),
{
    if s.len() == 0 {
        0
    } else {
        hex_value(s.drop_last()) * 16 + hex_digit_value(s.last())
    }
}

/// Whether every byte of `s` is a hex digit.
pub open spec fn all_hex_digits(s: Seq<u8>) -> bool {
    forall|i: int| 0 <= i < s.len() ==> is_hex_digit(#[trigger] s[i])
}

/// The lower-case hex digit of the low four bits of `val`.
pub fn nibble_digit(val: u8) -> (c: u8)
    ensures
        c == lower_hex_digit(val % 16),
{
    let a = val & 0x0f;
    assert(a == val % 16) by (bit_vector)
        requires
            a == val & 0x0f,
    ;
    if a < 10 {
        a + 48
    } else {
        a + 87
    }
}

/// The two lower-case hex digits of a byte, high nibble first.
pub open spec fn spec_u8_digits(val: u8) -> Seq<u8> {
    seq![lower_hex_digit(val / 16), lower_hex_digit(val % 16)]
}

/// The two lower-case hex digits of a byte, high nibble first.
pub fn u8_digits(val: u8) -> (r: [u8; 2])
    ensures
        r@ == spec_u8_digits(val),
{
    assert(val >> 4 == val / 16) by (bit_vector);
    assert(val & 0xf == val % 16) by (bit_vector);
    [nibble_digit(val >> 4), nibble_digit(val & 0xf)]
}

/// "0x" and the eight lower-case hex digits of a word: the digits of its
/// bytes, most significant byte first.
pub open spec fn spec_u32_text(val: u32) -> Seq<u8> {
    seq![48u8, 120u8] + spec_u8_digits((val >> 24) as u8) + spec_u8_digits((val >> 16) as u8)
        + spec_u8_digits((val >> 8) as u8) + spec_u8_digits(val as u8)
}

/// "0x" and the eight lower-case hex digits of a word.
pub fn u32_text(val: u32) -> (r: [u8; 10])
    ensures
        r@ == spec_u32_text(val),
{
    let a = u8_digits((val >> 24) as u8);
    let b = u8_digits((val >> 16) as u8);
    let c = u8_digits((val >> 8) as u8);
    let d = u8_digits(val as u8);
    let r = [48u8, 120u8, a[0], a[1], b[0], b[1], c[0], c[1], d[0], d[1]];
    assert(r@ =~= spec_u32_text(val));
    r
}

/// The upper-case hex digits of `n`, without leading zeros.
pub open spec fn upper_hex(n: nat) -> Seq<u8>
    decreases n,
{
    if n < 16 {
        seq![upper_hex_digit(n as int)]
    } else {
        upper_hex(n / 16).push(upper_hex_digit((n % 16) as int))
    }
}

/// The upper-case hex digits of `n`, without leading zeros.
pub fn upper_hex_text(n: usize) -> (r: Vec<u8>)
    ensures
        r@ == upper_hex(n as nat),
{
    let mut digits: Vec<u8> = Vec::new();
    let d = n % 16;
    digits.push(if d < 10 { d as u8 + 48 } else { d as u8 + 55 });
    let mut v = n / 16;
    while v > 0
        invariant
            v <= n,
            upper_hex(n as nat) == (if v == 0 { Seq::<u8>::empty() } else { upper_hex(v as nat) }) + digits@,
        decreases v,
    {
        let d = v % 16;
        let c = if d < 10 { d as u8 + 48 } else { d as u8 + 55 };
        proof {
            if v >= 16 {
                assert(upper_hex(v as nat) == upper_hex((v / 16) as nat).push(c));
                assert(upper_hex((v / 16) as nat) + digits@.insert(0, c) =~= upper_hex(
                    (v / 16) as nat,
                ).push(c) + digits@);
            } else {
                assert(digits@.insert(0, c) =~= upper_hex(v as nat) + digits@);
            }
        }
        digits.insert(0, c);
        v = v / 16;
    }
    proof {
        assert(Seq::<u8>::empty() + digits@ =~= digits@);
    }
    digits
}

/// `s` with every leading "0x" removed, as `str::trim_start_matches("0x")` does.
pub open spec fn trim_0x(s: Seq<u8>) -> Seq<u8>
    decreases s.len(),
{
    if s.len() >= 2 && s[0] == 48 && s[1] == 120 {
        trim_0x(s.subrange(2, s.len() as int))
    } else {
        s
    }
}

/// The digits that base-16 parsing reads: a leading '+' is dropped when
/// something follows it.
pub open spec fn radix16_digits(s: Seq<u8>) -> Seq<u8> {
    if s.len() >= 2 && s[0] == 43 {
        s.drop_first()
    } else {
        s
    }
}

/// The number that a memory location or size in the chip description
/// stands for: leading "0x" removed, then read in base 16 (an optional '+',
/// then at least one hex digit, at most `usize::MAX`).
pub open spec fn spec_parse_hex(s: Seq<u8>) -> Option<nat> {
    let d = radix16_digits(trim_0x(s));
    if d.len() > 0 && all_hex_digits(d) && hex_value(d) <= usize::MAX {
        Some(hex_value(d) as nat)
    } else {
        None
    }
}

proof fn lemma_hex_value_prefix_grows(s: Seq<u8>, k: int)
    requires
        0 <= k <= s.len(),
        all_hex_digits(s),
    ensures
        0 <= hex_value(s.subrange(0, k)) <= hex_value(s),
    decreases s.len() - k,
{
    if k < s.len() {
        lemma_hex_value_prefix_grows(s, k + 1);
        assert(s.subrange(0, k + 1).drop_last() =~= s.subrange(0, k));
        assert(hex_value(s.subrange(0, k)) >= 0) by {
            lemma_hex_value_nonneg(s.subrange(0, k));
        }
    } else {
        assert(s.subrange(0, k) =~= s);
        lemma_hex_value_nonneg(s);
    }
}

proof fn lemma_hex_value_nonneg(s: Seq<u8>)
    requires
        all_hex_digits(s),
    ensures
        hex_value(s) >= 0,
    decreases s.len(),
{
    if s.len() > 0 {
        assert(all_hex_digits(s.drop_last()));
        lemma_hex_value_nonneg(s.drop_last());
        assert(is_hex_digit(s[s.len() - 1]));
    }
}

/// Read a memory location or size of the chip description: leading "0x"
/// removed, then base 16 as `usize::from_str_radix` reads it.
pub fn parse_hex(s: &[u8]) -> (r: Option<usize>)
    ensures
        r is Some <==> spec_parse_hex(s@) is Some,
        r is Some ==> spec_parse_hex(s@) == Some(r->0 as nat),
{
    let len = s.len();
    let mut i: usize = 0;
    assert(s@.subrange(0, len as int) =~= s@);
    while len - i >= 2 && s[i] == 48 && s[i + 1] == 120
        invariant
            i <= len,
            len == s@.len(),
            trim_0x(s@) == trim_0x(s@.subrange(i as int, len as int)),
        decreases len - i,
    {
        proof {
            let t = s@.subrange(i as int, len as int);
            assert(t.subrange(2, t.len() as int) =~= s@.subrange(i + 2, len as int));
        }
        i = i + 2;
    }
    let ghost t = s@.subrange(i as int, len as int);
    assert(trim_0x(t) == t);
    if len - i >= 2 && s[i] == 43 {
        i = i + 1;
    }
    let ghost d = s@.subrange(i as int, len as int);
    assert(d =~= radix16_digits(trim_0x(s@)));
    if i == len {
        return None;
    }
    let start = i;
    let mut acc: usize = 0;
    while i < len
        invariant
            start <= i <= len,
            len == s@.len(),
            d == s@.subrange(start as int, len as int),
            d == radix16_digits(trim_0x(s@)),
            acc == hex_value(s@.subrange(start as int, i as int)),
            all_hex_digits(s@.subrange(start as int, i as int)),
        decreases len - i,
    {
        let c = s[i];
        let v: usize = if 48 <= c && c <= 57 {
            (c - 48) as usize
        } else if 65 <= c && c <= 70 {
            (c - 55) as usize
        } else if 97 <= c && c <= 102 {
            (c - 87) as usize
        } else {
            proof {
                assert(d[i - start] == c);
            }
            return None;
        };
        let ghost p = s@.subrange(start as int, i as int + 1);
        assert(p.drop_last() =~= s@.subrange(start as int, i as int));
        assert(all_hex_digits(p));
        if acc > (usize::MAX - v) / 16 {
            proof {
                assert(hex_value(p) > usize::MAX);
                if all_hex_digits(d) {
                    lemma_hex_value_prefix_grows(d, i - start + 1);
                    assert(d.subrange(0, i - start + 1) =~= p);
                }
            }
            return None;
        }
        acc = acc * 16 + v;
        i = i + 1;
    }
    assert(s@.subrange(start as int, i as int) =~= d);
    Some(acc)
}

proof fn lemma_upper_hex_digits(n: nat)
    ensures
        upper_hex(n).len() > 0,
        all_hex_digits(upper_hex(n)),
        hex_value(upper_hex(n)) == n,
        upper_hex(n)[0] != 43,
    decreases n,
{
    if n >= 16 {
        lemma_upper_hex_digits(n / 16);
        let s = upper_hex(n);
        assert(s.drop_last() =~= upper_hex(n / 16));
        assert(all_hex_digits(s));
        assert(hex_value(s) == hex_value(upper_hex(n / 16)) * 16 + (n % 16));
        assert((n / 16) * 16 + n % 16 == n);
    } else {
        assert(upper_hex(n).drop_last() =~= Seq::<u8>::empty());
        assert(hex_value(upper_hex(n)) == hex_value(Seq::<u8>::empty()) * 16 + hex_digit_value(
            upper_hex_digit(n as int),
        ));
    }
}

/// The number written as "0x" and its upper-case hex digits reads back as
/// that number.
pub proof fn lemma_upper_hex_reads_back(n: usize)
    ensures
        spec_parse_hex(seq![48u8, 120u8] + upper_hex(n as nat)) == Some(n as nat),
{
    let s = seq![48u8, 120u8] + upper_hex(n as nat);
    lemma_upper_hex_digits(n as nat);
    assert(s.subrange(2, s.len() as int) =~= upper_hex(n as nat));
    let u = upper_hex(n as nat);
    if u.len() >= 2 {
        assert(!(u[0] == 48 && u[1] == 120)) by {
            assert(is_hex_digit(u[1]));
        }
    }
    reveal_with_fuel(trim_0x, 2);
    assert(trim_0x(s) == u);
}

proof fn lemma_hex_value_push(s: Seq<u8>, c: u8)
    ensures
        hex_value(s.push(c)) == hex_value(s) * 16 + hex_digit_value(c),
{
    assert(s.push(c).drop_last() =~= s);
}

/// The printed text of a word reads back as that word.
pub proof fn lemma_u32_text_reads_back(val: u32)
    ensures
        spec_parse_hex(spec_u32_text(val)) == Some(val as nat),
{
    let s = spec_u32_text(val);
    let b3 = (val >> 24) as u8;
    let b2 = (val >> 16) as u8;
    let b1 = (val >> 8) as u8;
    let b0 = val as u8;
    let n = seq![b3 / 16, b3 % 16, b2 / 16, b2 % 16, b1 / 16, b1 % 16, b0 / 16, b0 % 16];
    let d0 = Seq::<u8>::empty();
    let d1 = d0.push(lower_hex_digit(n[0]));
    let d2 = d1.push(lower_hex_digit(n[1]));
    let d3 = d2.push(lower_hex_digit(n[2]));
    let d4 = d3.push(lower_hex_digit(n[3]));
    let d5 = d4.push(lower_hex_digit(n[4]));
    let d6 = d5.push(lower_hex_digit(n[5]));
    let d7 = d6.push(lower_hex_digit(n[6]));
    let d8 = d7.push(lower_hex_digit(n[7]));
    assert(s.subrange(2, s.len() as int) =~= d8);
    lemma_hex_value_push(d0, lower_hex_digit(n[0]));
    lemma_hex_value_push(d1, lower_hex_digit(n[1]));
    lemma_hex_value_push(d2, lower_hex_digit(n[2]));
    lemma_hex_value_push(d3, lower_hex_digit(n[3]));
    lemma_hex_value_push(d4, lower_hex_digit(n[4]));
    lemma_hex_value_push(d5, lower_hex_digit(n[5]));
    lemma_hex_value_push(d6, lower_hex_digit(n[6]));
    lemma_hex_value_push(d7, lower_hex_digit(n[7]));
    assert(val == (b3 / 16) * 0x1000_0000 + (b3 % 16) * 0x100_0000 + (b2 / 16) * 0x10_0000 + (b2
        % 16) * 0x1_0000 + (b1 / 16) * 0x1000 + (b1 % 16) * 0x100 + (b0 / 16) * 0x10 + (b0 % 16))
        by (bit_vector)
        requires
            b3 == (val >> 24) as u8,
            b2 == (val >> 16) as u8,
            b1 == (val >> 8) as u8,
            b0 == val as u8,
    ;
    assert(hex_value(d8) == val);
    assert(all_hex_digits(d8));
    assert(!(d8[0] == 48 && d8[1] == 120));
    reveal_with_fuel(trim_0x, 2);
    assert(trim_0x(s) == d8);
}

} // verus!
