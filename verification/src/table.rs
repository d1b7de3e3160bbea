//! The service table patcher: swaps the hooked function-pointer slot inside
//! the firmware-owned table and restores the table's integrity checksum, all
//! under the priority guard.

use vstd::prelude::*;

use crate::crc32::{calculate_crc32, crc32_spec};
use crate::status::Status;
use crate::tpl::{acquire, release, PriorityState, TPL_HIGH_LEVEL};

verus! {

/// The header of the service table; every consumer may check its checksum.
pub struct TableHeader {
    pub signature: u64,
    pub revision: u32,
    pub header_size: u32,
    pub crc32: u32,
    pub reserved: u32,
}

/// The firmware-owned service table: its header and the hooked slot, here
/// the address of the variable-read service.
pub struct ServiceTable {
    pub hdr: TableHeader,
    pub get_variable: u64,
}

/// The byte image of a header: its fields little-endian, in declaration
/// order.
pub open spec fn header_bytes(h: TableHeader) -> Seq<u8> {
    u64_le(h.signature) + u32_le(h.revision) + u32_le(h.header_size) + u32_le(h.crc32) + u32_le(
        h.reserved,
    )
}

/// The little-endian byte image of a 32-bit value.
pub open spec fn u32_le(x: u32) -> Seq<u8> {
    seq![
        (x & 0xff) as u8,
        ((x >> 8) & 0xff) as u8,
        ((x >> 16) & 0xff) as u8,
        ((x >> 24) & 0xff) as u8,
    ]
}

/// The little-endian byte image of a 64-bit value.
pub open spec fn u64_le(x: u64) -> Seq<u8> {
    seq![
        (x & 0xff) as u8,
        ((x >> 8) & 0xff) as u8,
        ((x >> 16) & 0xff) as u8,
        ((x >> 24) & 0xff) as u8,
        ((x >> 32) & 0xff) as u8,
        ((x >> 40) & 0xff) as u8,
        ((x >> 48) & 0xff) as u8,
        ((x >> 56) & 0xff) as u8,
    ]
}

/// A table is self-consistent when its stored checksum equals the checksum
/// of its header image taken with the checksum field itself zeroed.
pub open spec fn table_checksum_valid(t: ServiceTable) -> bool {
    t.hdr.crc32 == crc32_spec(
        header_bytes(
            TableHeader {
                signature: t.hdr.signature,
                revision: t.hdr.revision,
                header_size: t.hdr.header_size,
                crc32: 0,
                reserved: t.hdr.reserved,
            },
        ),
    )
}

/// Serializes a header to its byte image.
pub fn serialize_header(h: &TableHeader) -> (r: Vec<u8>)
    ensures
        r@ == header_bytes(*h),
{
    let mut r: Vec<u8> = Vec::new();
    r.push((h.signature & 0xff) as u8);
    r.push(((h.signature >> 8) & 0xff) as u8);
    r.push(((h.signature >> 16) & 0xff) as u8);
    r.push(((h.signature >> 24) & 0xff) as u8);
    r.push(((h.signature >> 32) & 0xff) as u8);
    r.push(((h.signature >> 40) & 0xff) as u8);
    r.push(((h.signature >> 48) & 0xff) as u8);
    r.push(((h.signature >> 56) & 0xff) as u8);
    r.push((h.revision & 0xff) as u8);
    r.push(((h.revision >> 8) & 0xff) as u8);
    r.push(((h.revision >> 16) & 0xff) as u8);
    r.push(((h.revision >> 24) & 0xff) as u8);
    r.push((h.header_size & 0xff) as u8);
    r.push(((h.header_size >> 8) & 0xff) as u8);
    r.push(((h.header_size >> 16) & 0xff) as u8);
    r.push(((h.header_size >> 24) & 0xff) as u8);
    r.push((h.crc32 & 0xff) as u8);
    r.push(((h.crc32 >> 8) & 0xff) as u8);
    r.push(((h.crc32 >> 16) & 0xff) as u8);
    r.push(((h.crc32 >> 24) & 0xff) as u8);
    r.push((h.reserved & 0xff) as u8);
    r.push(((h.reserved >> 8) & 0xff) as u8);
    r.push(((h.reserved >> 16) & 0xff) as u8);
    r.push(((h.reserved >> 24) & 0xff) as u8);
    proof {
        assert(r@ =~= header_bytes(*h));
    }
    r
}

/// True when the hook may be installed: the slot does not already hold
/// `new_function_pointer`.
pub fn install_allowed(table: &ServiceTable, new_function_pointer: u64) -> (r: bool)
    ensures
        r == (table.get_variable != new_function_pointer),
{
    table.get_variable != new_function_pointer
}

/// Swaps the hooked slot for `new_function_pointer` and recomputes the table
/// checksum, all under the priority guard; the captured original lands in
/// `original_function_pointer`.
///
/// The slot must not already hold the replacement: installing twice is a
/// programming error, rejected before any mutation. The priority level in
/// effect on entry is restored on exit.
pub fn exchange_pointer_in_service_table(
    table: &mut ServiceTable,
    prio: &mut PriorityState,
    new_function_pointer: u64,
    original_function_pointer: &mut u64,
) -> (r: Status)
    requires
        old(table).get_variable != new_function_pointer,
        old(prio).level <= TPL_HIGH_LEVEL,
    ensures
        *final(original_function_pointer) == old(table).get_variable,
        final(table).get_variable == new_function_pointer,
        final(table).hdr.signature == old(table).hdr.signature,
        final(table).hdr.revision == old(table).hdr.revision,
        final(table).hdr.header_size == old(table).hdr.header_size,
        final(table).hdr.reserved == old(table).hdr.reserved,
        table_checksum_valid(*final(table)),
        final(prio).level == old(prio).level,
        r.code == 0,
        !r.is_error(),
{
    let guard = acquire(prio);

    *original_function_pointer = table.get_variable;
    table.get_variable = new_function_pointer;

    table.hdr.crc32 = 0;
    let image = serialize_header(&table.hdr);
    let checksum = calculate_crc32(image.as_slice());
    table.hdr.crc32 = checksum;

    release(prio, guard);
    Status::success()
}

} // verus!
