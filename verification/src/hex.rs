//! Hexadecimal text rendering for log records.
//!
//! Values are rendered with a caller-chosen minimum digit count (zero-padded)
//! and grow beyond it only when the value needs more digits.

use vstd::prelude::*;

verus! {

/// The ASCII digit for a single hex value below 16.
pub open spec fn spec_hex_digit(d: u8, upper: bool) -> u8 {
    if d < 10 {
        (d + 0x30) as u8
    } else if upper {
        ((d - 10) + 0x41) as u8
    } else {
        ((d - 10) + 0x61) as u8
    }
}

/// The hexadecimal rendering of `n`, zero-padded to at least `width` digits.
pub open spec fn spec_hex_rep(n: nat, width: nat, upper: bool) -> Seq<u8>
    decreases n, width,
{
    let d = spec_hex_digit((n % 16) as u8, upper);
    if n < 16 && width <= 1 {
        seq![d]
    } else {
        spec_hex_rep(n / 16, if width == 0 { 0 } else { (width - 1) as nat }, upper) + seq![d]
    }
}

/// The ASCII digit for a single hex value below 16.
pub fn hex_digit(d: u8, upper: bool) -> (r: u8)
    requires
        d < 16,
    ensures
        r == spec_hex_digit(d, upper),
{
    if d < 10 {
        d + 0x30
    } else if upper {
        (d - 10) + 0x41
    } else {
        (d - 10) + 0x61
    }
}

/// Appends the hexadecimal rendering of `n`, zero-padded to at least `width`
/// digits, to `out`.
pub fn push_hex(out: &mut Vec<u8>, n: u64, width: usize, upper: bool)
    ensures
        final(out)@ == old(out)@ + spec_hex_rep(n as nat, width as nat, upper),
    decreases n, width,
{
    let d = hex_digit((n % 16) as u8, upper);
    if n < 16 && width <= 1 {
        out.push(d);
    } else {
        let narrower: usize = if width == 0 {
            0
        } else {
            width - 1
        };
        push_hex(out, n / 16, narrower, upper);
        out.push(d);
        proof {
            assert(out@ =~= old(out)@ + spec_hex_rep(n as nat, width as nat, upper));
        }
    }
}

/// Appends a copy of `bytes` to `out`.
pub fn push_bytes(out: &mut Vec<u8>, bytes: &[u8])
    ensures
        final(out)@ == old(out)@ + bytes@,
{
    let mut i: usize = 0;
    while i < bytes.len()
        invariant
            i <= bytes@.len(),
            out@ == old(out)@ + bytes@.take(i as int),
        decreases bytes@.len() - i,
    {
        out.push(bytes[i]);
        proof {
            assert(out@ =~= old(out)@ + bytes@.take(i as int + 1));
        }
        i += 1;
    }
    proof {
        assert(bytes@.take(bytes@.len() as int) =~= bytes@);
    }
}

} // verus!
