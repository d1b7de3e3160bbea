//! The driver's lifecycle and its three entry points: the interception
//! trampoline, the one-shot relocation handler, and the module entry flow.
//!
//! The firmware itself — the forwarded service call, event registration and
//! delivery, and the pointer-conversion service — acts outside this module;
//! each function here takes what the firmware reported as plain values and
//! performs the driver's own decisions and bookkeeping on them.

use vstd::prelude::*;

use crate::decoder::{convert_variable_name, decoded_name, NAME_CAPACITY};
use crate::guid::{guid_text, push_guid, Guid};
use crate::hex::{push_bytes, push_hex, spec_hex_rep};
use crate::serial::Serial;
use crate::status::Status;
use crate::table::{
    exchange_pointer_in_service_table, table_checksum_valid, ServiceTable,
};
use crate::tpl::{PriorityState, TPL_HIGH_LEVEL};

verus! {

/// The lifecycle of the captured original pointer: assigned at install time,
/// converted once at relocation time, immutable otherwise.
#[derive(Clone, Copy, PartialEq, Eq, Structural, Debug)]
pub enum Phase {
    Uninitialized,
    Installed,
    Relocated,
}

/// The process-wide driver state: the lifecycle phase and the captured
/// original function pointer.
pub struct DriverState {
    pub phase: Phase,
    pub captured: u64,
}

impl DriverState {
    /// The state before the driver entry point has run.
    pub fn new() -> (r: DriverState)
        ensures
            r.phase is Uninitialized,
            r.captured == 0,
    {
        DriverState { phase: Phase::Uninitialized, captured: 0 }
    }
}

/// The size recorded for a call: zero when the caller passed no size
/// pointer.
pub open spec fn spec_effective_size(data_size: Option<u64>) -> u64 {
    match data_size {
        Option::Some(s) => s,
        Option::None => 0,
    }
}

/// Reads the caller's size for logging; a missing size pointer counts as
/// zero, and nothing of the caller's is mutated.
pub fn get_effective_size(data_size: Option<u64>) -> (r: u64)
    ensures
        r == spec_effective_size(data_size),
        data_size is None ==> r == 0,
{
    match data_size {
        Option::Some(s) => s,
        Option::None => 0,
    }
}

/// The record emitted for one intercepted call: GUID, size, decoded name and
/// status, one line.
pub open spec fn access_line(g: Guid, size: u64, name: Seq<u8>, status: Status) -> Seq<u8> {
    seq![0x47u8, 0x3au8, 0x20u8] + guid_text(g) + seq![0x20u8, 0x53u8, 0x69u8, 0x7au8, 0x65u8, 0x3du8]
        + spec_hex_rep(size as nat, 8, false) + seq![0x20u8] + name + seq![0x3au8, 0x20u8, 0x30u8, 0x78u8]
        + spec_hex_rep(status.code as nat, 1, false) + seq![0x0au8]
}

/// Emits one structured record describing an intercepted call.
pub fn log_variable_access(
    serial: &mut Serial,
    guid: &Guid,
    size: u64,
    name: &Vec<u8>,
    status: Status,
)
    ensures
        final(serial)@ == old(serial)@ + access_line(*guid, size, name@, status),
{
    let mut line: Vec<u8> = vec![0x47u8, 0x3au8, 0x20u8];
    push_guid(&mut line, guid);
    let size_tag: Vec<u8> = vec![0x20u8, 0x53u8, 0x69u8, 0x7au8, 0x65u8, 0x3du8];
    push_bytes(&mut line, size_tag.as_slice());
    push_hex(&mut line, size, 8, false);
    line.push(0x20u8);
    push_bytes(&mut line, name.as_slice());
    let status_tag: Vec<u8> = vec![0x3au8, 0x20u8, 0x30u8, 0x78u8];
    push_bytes(&mut line, status_tag.as_slice());
    push_hex(&mut line, status.code, 1, false);
    line.push(0x0au8);
    serial.write_bytes(line.as_slice());
    proof {
        assert(serial@ =~= old(serial)@ + access_line(*guid, size, name@, status));
    }
}

/// The interception trampoline, after the forwarded call: reports the
/// original service's status verbatim and emits one log record.
///
/// The forwarded call itself runs outside with the caller's arguments
/// untouched; `efi_status` is what the original returned, and nothing here
/// writes to any caller buffer, so callers observe exactly the unhooked
/// behaviour plus one log line.
pub fn handle_get_variable(
    serial: &mut Serial,
    variable_name: &[u16],
    vendor_guid: &Guid,
    data_size: Option<u64>,
    efi_status: Status,
) -> (r: Status)
    requires
        variable_name@.len() == NAME_CAPACITY,
    ensures
        r == efi_status,
        final(serial)@ == old(serial)@ + access_line(
            *vendor_guid,
            spec_effective_size(data_size),
            decoded_name(variable_name@),
            efi_status,
        ),
{
    let name = convert_variable_name(variable_name);
    let effective_size = get_effective_size(data_size);
    log_variable_access(serial, vendor_guid, effective_size, &name, efi_status);
    efi_status
}

/// The line the relocation handler emits: the pointer before and after
/// conversion, each 0x-prefixed and zero-padded to eight characters.
pub open spec fn relocation_line(from: u64, to: u64) -> Seq<u8> {
    seq![
        0x47u8, 0x65u8, 0x74u8, 0x56u8, 0x61u8, 0x72u8, 0x69u8, 0x61u8, 0x62u8, 0x6cu8, 0x65u8, 0x20u8,
        0x72u8, 0x65u8, 0x6cu8, 0x6fu8, 0x63u8, 0x61u8, 0x74u8, 0x65u8, 0x64u8, 0x20u8,
        0x66u8, 0x72u8, 0x6fu8, 0x6du8, 0x20u8, 0x30u8, 0x78u8,
    ] + spec_hex_rep(from as nat, 6, false) + seq![0x20u8, 0x74u8, 0x6fu8, 0x20u8, 0x30u8, 0x78u8]
        + spec_hex_rep(to as nat, 6, false) + seq![0x0au8]
}

/// The one-shot relocation handler, fired on the platform's
/// address-space-transition notification.
///
/// The firmware's pointer-conversion service rewrites the captured original
/// pointer by the reported delta and nothing else; a null context or a
/// failed conversion is a fatal programming error, excluded here, and the
/// phase change makes a second invocation impossible to rely on.
pub fn handle_set_virtual_address_map(
    state: &mut DriverState,
    serial: &mut Serial,
    context: Option<u64>,
    delta: u64,
    conversion_status: Status,
)
    requires
        context is Some,
        old(state).phase is Installed,
        old(state).captured + delta <= u64::MAX,
        !conversion_status.is_error(),
    ensures
        final(state).phase is Relocated,
        final(state).captured == old(state).captured + delta,
        final(serial)@ == old(serial)@ + relocation_line(
            old(state).captured,
            (old(state).captured + delta) as u64,
        ),
{
    let curr_addr = state.captured;
    state.captured = curr_addr + delta;
    state.phase = Phase::Relocated;

    let mut line: Vec<u8> = vec![
        0x47u8, 0x65u8, 0x74u8, 0x56u8, 0x61u8, 0x72u8, 0x69u8, 0x61u8, 0x62u8, 0x6cu8, 0x65u8, 0x20u8,
        0x72u8, 0x65u8, 0x6cu8, 0x6fu8, 0x63u8, 0x61u8, 0x74u8, 0x65u8, 0x64u8, 0x20u8,
        0x66u8, 0x72u8, 0x6fu8, 0x6du8, 0x20u8, 0x30u8, 0x78u8,
    ];
    push_hex(&mut line, curr_addr, 6, false);
    let to_tag: Vec<u8> = vec![0x20u8, 0x74u8, 0x6fu8, 0x20u8, 0x30u8, 0x78u8];
    push_bytes(&mut line, to_tag.as_slice());
    push_hex(&mut line, state.captured, 6, false);
    line.push(0x0au8);
    serial.write_bytes(line.as_slice());
    proof {
        assert(serial@ =~= old(serial)@ + relocation_line(
            old(state).captured,
            (old(state).captured + delta) as u64,
        ));
    }
}

/// Law: relocation is one-shot. Once the handler has run, the state is no
/// longer in the phase its precondition demands, so nothing can rely on a
/// second invocation.
pub proof fn lemma_relocation_is_one_shot(state: DriverState)
    requires
        state.phase is Relocated,
    ensures
        !(state.phase is Installed),
{
}

/// The line emitted when the driver entry point starts.
pub open spec fn loaded_line() -> Seq<u8> {
    seq![
        0x44u8, 0x72u8, 0x69u8, 0x76u8, 0x65u8, 0x72u8, 0x20u8, 0x62u8, 0x65u8, 0x69u8, 0x6eu8, 0x67u8, 0x20u8,
        0x6cu8, 0x6fu8, 0x61u8, 0x64u8, 0x65u8, 0x64u8, 0x0au8,
    ]
}

/// The line emitted when event registration fails, carrying the firmware's
/// status.
pub open spec fn registration_failed_line(status: Status) -> Seq<u8> {
    seq![
        0x63u8, 0x72u8, 0x65u8, 0x61u8, 0x74u8, 0x65u8, 0x5fu8, 0x65u8, 0x76u8, 0x65u8, 0x6eu8, 0x74u8, 0x5fu8,
        0x65u8, 0x78u8, 0x20u8, 0x66u8, 0x61u8, 0x69u8, 0x6cu8, 0x65u8, 0x64u8, 0x20u8, 0x3au8, 0x20u8, 0x30u8, 0x78u8,
    ] + spec_hex_rep(status.code as nat, 1, false) + seq![0x0au8]
}

/// The module entry flow, after the registration request was made: on a
/// failed registration nothing is mutated and the firmware's status is
/// propagated; otherwise the hook is installed under the priority guard, the
/// original captured, and the table checksum restored.
///
/// The registration itself — asking the firmware for a one-shot notification
/// on the address-space transition — happens outside; `registration_status`
/// is what the firmware returned for it.
pub fn efi_main(
    state: &mut DriverState,
    table: &mut ServiceTable,
    prio: &mut PriorityState,
    serial: &mut Serial,
    new_function: u64,
    registration_status: Status,
) -> (r: Status)
    requires
        old(state).phase is Uninitialized,
        old(table).get_variable != new_function,
        old(prio).level <= TPL_HIGH_LEVEL,
    ensures
        final(prio).level == old(prio).level,
        registration_status.is_error() ==> r == registration_status,
        registration_status.is_error() ==> *final(state) == *old(state),
        registration_status.is_error() ==> *final(table) == *old(table),
        registration_status.is_error() ==> final(serial)@ == old(serial)@ + loaded_line()
            + registration_failed_line(registration_status),
        !registration_status.is_error() ==> !r.is_error(),
        !registration_status.is_error() ==> final(state).phase is Installed,
        !registration_status.is_error() ==> final(state).captured == old(table).get_variable,
        !registration_status.is_error() ==> final(table).get_variable == new_function,
        !registration_status.is_error() ==> table_checksum_valid(*final(table)),
        !registration_status.is_error() ==> final(table).hdr.signature == old(
            table,
        ).hdr.signature,
        !registration_status.is_error() ==> final(table).hdr.header_size == old(
            table,
        ).hdr.header_size,
        !registration_status.is_error() ==> final(table).hdr.revision == old(table).hdr.revision,
        !registration_status.is_error() ==> final(table).hdr.reserved == old(table).hdr.reserved,
        !registration_status.is_error() ==> final(serial)@ == old(serial)@ + loaded_line(),
{
    let loaded: Vec<u8> = vec![
        0x44u8, 0x72u8, 0x69u8, 0x76u8, 0x65u8, 0x72u8, 0x20u8, 0x62u8, 0x65u8, 0x69u8, 0x6eu8, 0x67u8, 0x20u8,
        0x6cu8, 0x6fu8, 0x61u8, 0x64u8, 0x65u8, 0x64u8, 0x0au8,
    ];
    serial.write_bytes(loaded.as_slice());

    if registration_status.is_error() {
        let mut line: Vec<u8> = vec![
            0x63u8, 0x72u8, 0x65u8, 0x61u8, 0x74u8, 0x65u8, 0x5fu8, 0x65u8, 0x76u8, 0x65u8, 0x6eu8, 0x74u8, 0x5fu8,
            0x65u8, 0x78u8, 0x20u8, 0x66u8, 0x61u8, 0x69u8, 0x6cu8, 0x65u8, 0x64u8, 0x20u8, 0x3au8, 0x20u8, 0x30u8, 0x78u8,
        ];
        push_hex(&mut line, registration_status.code, 1, false);
        line.push(0x0au8);
        serial.write_bytes(line.as_slice());
        proof {
            assert(serial@ =~= old(serial)@ + loaded_line() + registration_failed_line(
                registration_status,
            ));
        }
        return registration_status;
    }

    let mut original: u64 = 0;
    let efi_status = exchange_pointer_in_service_table(table, prio, new_function, &mut original);
    state.captured = original;
    state.phase = Phase::Installed;
    proof {
        assert(serial@ =~= old(serial)@ + loaded_line());
    }
    efi_status
}

} // verus!
