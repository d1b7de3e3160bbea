//! The table-integrity checksum: CRC-32 over the table header image.
//!
//! The platform keeps a CRC-32 (reflected, polynomial `0xEDB88320`, initial
//! value and final complement all-ones) of every service table header, and
//! every consumer of the table may check it. The checksum is recomputed here
//! after each table mutation.

use vstd::prelude::*;

verus! {

/// One bit step of the reflected CRC-32: shift right, folding the polynomial
/// in when the low bit was set.
pub open spec fn crc32_bit_step(c: u32) -> u32 {
    if c & 1 == 1 {
        (c >> 1) ^ 0xEDB8_8320u32
    } else {
        c >> 1
    }
}

/// `k` bit steps applied to `c`.
pub open spec fn crc32_bits(c: u32, k: nat) -> u32
    decreases k,
{
    if k == 0 {
        c
    } else {
        crc32_bit_step(crc32_bits(c, (k - 1) as nat))
    }
}

/// One byte folded into the running value: mix the byte into the low bits,
/// then eight bit steps.
pub open spec fn crc32_byte(c: u32, b: u8) -> u32 {
    crc32_bits(c ^ (b as u32), 8)
}

/// Every byte of `s`, in order, folded into the running value `c`.
pub open spec fn crc32_fold(c: u32, s: Seq<u8>) -> u32
    decreases s.len(),
{
    if s.len() == 0 {
        c
    } else {
        crc32_fold(crc32_byte(c, s[0]), s.drop_first())
    }
}

/// The CRC-32 of `s`: fold from all-ones, then complement.
pub open spec fn crc32_spec(s: Seq<u8>) -> u32 {
    crc32_fold(0xFFFF_FFFFu32, s) ^ 0xFFFF_FFFFu32
}

/// Folding one more byte at the end equals folding the prefix and then that
/// byte.
proof fn lemma_crc32_fold_push(c: u32, s: Seq<u8>, b: u8)
    ensures
        crc32_fold(c, s.push(b)) == crc32_byte(crc32_fold(c, s), b),
    decreases s.len(),
{
    if s.len() == 0 {
        assert(s.push(b)[0] == b);
        assert(s.push(b).drop_first() =~= Seq::<u8>::empty());
        assert(crc32_fold(c, s.push(b)) == crc32_fold(crc32_byte(c, b), Seq::<u8>::empty()));
        assert(crc32_fold(crc32_byte(c, b), Seq::<u8>::empty()) == crc32_byte(c, b));
        assert(crc32_fold(c, s) == c);
    } else {
        assert(s.push(b)[0] == s[0]);
        assert(s.push(b).drop_first() =~= s.drop_first().push(b));
        lemma_crc32_fold_push(crc32_byte(c, s[0]), s.drop_first(), b);
        assert(crc32_fold(c, s.push(b)) == crc32_fold(
            crc32_byte(c, s[0]),
            s.drop_first().push(b),
        ));
        assert(crc32_fold(c, s) == crc32_fold(crc32_byte(c, s[0]), s.drop_first()));
    }
}

/// Computes the CRC-32 of `data`.
pub fn calculate_crc32(data: &[u8]) -> (r: u32)
    ensures
        r == crc32_spec(data@),
{
    let mut crc: u32 = 0xFFFF_FFFF;
    let mut i: usize = 0;
    while i < data.len()
        invariant
            i <= data@.len(),
            crc == crc32_fold(0xFFFF_FFFFu32, data@.take(i as int)),
        decreases data@.len() - i,
    {
        let b = data[i];
        let start: u32 = crc ^ (b as u32);
        let mut cur: u32 = start;
        let mut k: usize = 0;
        while k < 8
            invariant
                k <= 8,
                cur == crc32_bits(start, k as nat),
            decreases 8 - k,
        {
            if cur & 1 == 1 {
                cur = (cur >> 1) ^ 0xEDB8_8320;
            } else {
                cur = cur >> 1;
            }
            k += 1;
        }
        proof {
            lemma_crc32_fold_push(0xFFFF_FFFFu32, data@.take(i as int), b);
            assert(data@.take(i as int).push(b) =~= data@.take(i as int + 1));
        }
        crc = cur;
        i += 1;
    }
    proof {
        assert(data@.take(data@.len() as int) =~= data@);
    }
    crc ^ 0xFFFF_FFFF
}

} // verus!
