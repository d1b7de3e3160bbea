//! The owning-identity GUID of an intercepted call, held as its five
//! canonical fields, and its canonical hyphenated rendering.

use vstd::prelude::*;

use crate::hex::{push_hex, spec_hex_rep};

verus! {

/// A 128-bit identifier, as the canonical one 32-bit, two 16-bit and eight
/// 8-bit components.
#[derive(Clone, Copy, Debug)]
pub struct Guid {
    pub time_low: u32,
    pub time_mid: u16,
    pub time_hi_and_version: u16,
    pub clk_seq_hi_res: u8,
    pub clk_seq_low: u8,
    pub node: [u8; 6],
}

impl Guid {
    /// Builds a GUID from its canonical fields.
    pub fn from_fields(
        time_low: u32,
        time_mid: u16,
        time_hi_and_version: u16,
        clk_seq_hi_res: u8,
        clk_seq_low: u8,
        node: [u8; 6],
    ) -> (r: Guid)
        ensures
            r.time_low == time_low,
            r.time_mid == time_mid,
            r.time_hi_and_version == time_hi_and_version,
            r.clk_seq_hi_res == clk_seq_hi_res,
            r.clk_seq_low == clk_seq_low,
            r.node == node,
    {
        Guid { time_low, time_mid, time_hi_and_version, clk_seq_hi_res, clk_seq_low, node }
    }

    /// The canonical field decomposition, for display.
    pub fn as_fields(&self) -> (r: (u32, u16, u16, u8, u8, [u8; 6]))
        ensures
            r.0 == self.time_low,
            r.1 == self.time_mid,
            r.2 == self.time_hi_and_version,
            r.3 == self.clk_seq_hi_res,
            r.4 == self.clk_seq_low,
            r.5 == self.node,
    {
        (
            self.time_low,
            self.time_mid,
            self.time_hi_and_version,
            self.clk_seq_hi_res,
            self.clk_seq_low,
            self.node,
        )
    }
}

/// The canonical 8-4-4-2-6 hyphenated upper-case hexadecimal rendering of a
/// GUID.
pub open spec fn guid_text(g: Guid) -> Seq<u8> {
    spec_hex_rep(g.time_low as nat, 8, true) + seq![0x2du8] + spec_hex_rep(
        g.time_mid as nat,
        4,
        true,
    ) + seq![0x2du8] + spec_hex_rep(g.time_hi_and_version as nat, 4, true) + seq![0x2du8]
        + spec_hex_rep(g.clk_seq_hi_res as nat, 2, true) + spec_hex_rep(
        g.clk_seq_low as nat,
        2,
        true,
    ) + seq![0x2du8] + spec_hex_rep(g.node@[0] as nat, 2, true) + spec_hex_rep(
        g.node@[1] as nat,
        2,
        true,
    ) + spec_hex_rep(g.node@[2] as nat, 2, true) + spec_hex_rep(g.node@[3] as nat, 2, true)
        + spec_hex_rep(g.node@[4] as nat, 2, true) + spec_hex_rep(g.node@[5] as nat, 2, true)
}

/// Appends the canonical rendering of `g` to `out`.
pub fn push_guid(out: &mut Vec<u8>, g: &Guid)
    ensures
        final(out)@ == old(out)@ + guid_text(*g),
{
    push_hex(out, g.time_low as u64, 8, true);
    out.push(0x2d);
    push_hex(out, g.time_mid as u64, 4, true);
    out.push(0x2d);
    push_hex(out, g.time_hi_and_version as u64, 4, true);
    out.push(0x2d);
    push_hex(out, g.clk_seq_hi_res as u64, 2, true);
    push_hex(out, g.clk_seq_low as u64, 2, true);
    out.push(0x2d);
    push_hex(out, g.node[0] as u64, 2, true);
    push_hex(out, g.node[1] as u64, 2, true);
    push_hex(out, g.node[2] as u64, 2, true);
    push_hex(out, g.node[3] as u64, 2, true);
    push_hex(out, g.node[4] as u64, 2, true);
    push_hex(out, g.node[5] as u64, 2, true);
    proof {
        assert(out@ =~= old(out)@ + guid_text(*g));
    }
}

} // verus!
