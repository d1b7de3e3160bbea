//! A verified model of a firmware-resident interception layer: a driver that
//! hooks one runtime service of a firmware service table, logs every call, and
//! survives the platform's one-time switch from physical to virtual addressing.
//!
//! The modules model the service table, the priority discipline, the argument
//! decoder, the log formatting, and the driver's lifecycle; the hardware byte
//! sink behind the log lines is represented by an appendable byte buffer.

mod crc32;
mod decoder;
mod driver;
mod guid;
mod hex;
mod serial;
mod status;
mod table;
mod tpl;

pub use crc32::{calculate_crc32, crc32_byte, crc32_fold, crc32_spec};
pub use decoder::{
    convert_variable_name, decoded_name, first_nul, lemma_decoded_name_bounded,
    lemma_decoded_name_full, lemma_decoded_name_no_nul, narrowed, NAME_CAPACITY,
};
pub use driver::{
    access_line, efi_main, get_effective_size, handle_get_variable,
    handle_set_virtual_address_map, lemma_relocation_is_one_shot, loaded_line,
    log_variable_access, registration_failed_line, relocation_line, spec_effective_size,
    DriverState, Phase,
};
pub use guid::{guid_text, push_guid, Guid};
pub use hex::{hex_digit, push_bytes, push_hex, spec_hex_digit, spec_hex_rep};
pub use tpl::{
    acquire, release, PriorityGuard, PriorityState, TPL_APPLICATION, TPL_CALLBACK, TPL_HIGH_LEVEL,
};
pub use serial::{error_line, info_line, log_error, log_info, Serial};
pub use status::{Status, STATUS_ERROR_BIT};
pub use table::{
    exchange_pointer_in_service_table, header_bytes, install_allowed, serialize_header,
    table_checksum_valid, u32_le, u64_le, ServiceTable, TableHeader,
};
