use uefi_var_monitor::{
    calculate_crc32, efi_main, get_effective_size, handle_get_variable,
    handle_set_virtual_address_map, install_allowed, push_hex, serialize_header, DriverState,
    Guid, Phase, PriorityState, Serial, ServiceTable, Status, TableHeader,
};

fn sample_guid() -> Guid {
    Guid::from_fields(
        0x12345678,
        0x1234,
        0x5678,
        0x9A,
        0xBC,
        [0xDE, 0xF0, 0x12, 0x34, 0x56, 0x78],
    )
}

fn sample_table(slot: u64) -> ServiceTable {
    ServiceTable {
        hdr: TableHeader {
            signature: 0x5652_2045_5452_2020,
            revision: 0x0002_0046,
            header_size: 24,
            crc32: 0,
            reserved: 0,
        },
        get_variable: slot,
    }
}

#[test]
fn trampoline_logs_the_canonical_record() {
    let mut serial = Serial::new();
    let mut name = [0u16; 64];
    name[0] = b'T' as u16;
    name[1] = b'E' as u16;
    name[2] = b'S' as u16;
    name[3] = b'T' as u16;
    let guid = sample_guid();
    let status = handle_get_variable(&mut serial, &name[..], &guid, Some(4), Status::success());
    assert_eq!(status.code, 0);
    assert_eq!(
        serial.emitted().as_slice(),
        b"G: 12345678-1234-5678-9ABC-DEF012345678 Size=00000004 TEST: 0x0\n".as_slice()
    );
}

#[test]
fn trampoline_returns_the_original_status_verbatim() {
    let mut serial = Serial::new();
    let name = [0u16; 64];
    let guid = sample_guid();
    let original = Status::from_code(0x8000_0000_0000_000E);
    let status = handle_get_variable(&mut serial, &name[..], &guid, Some(16), original);
    assert_eq!(status.code, original.code);
    assert!(status.is_error());
}

#[test]
fn null_size_pointer_logs_size_zero() {
    assert_eq!(get_effective_size(None), 0);
    assert_eq!(get_effective_size(Some(77)), 77);

    let mut serial = Serial::new();
    let name = [0u16; 64];
    let guid = sample_guid();
    handle_get_variable(&mut serial, &name[..], &guid, None, Status::success());
    let line = String::from_utf8(serial.emitted().clone()).unwrap();
    assert!(line.contains("Size=00000000"));
}

#[test]
fn install_swaps_the_slot_and_restores_the_checksum() {
    let mut state = DriverState::new();
    let mut table = sample_table(0x4000);
    let mut prio = PriorityState::at_application_level();
    let mut serial = Serial::new();

    let status = efi_main(
        &mut state,
        &mut table,
        &mut prio,
        &mut serial,
        0x9000,
        Status::success(),
    );
    assert!(!status.is_error());
    assert_eq!(state.phase, Phase::Installed);
    assert_eq!(state.captured, 0x4000);
    assert_eq!(table.get_variable, 0x9000);
    assert_eq!(prio.level, uefi_var_monitor::TPL_APPLICATION);
    assert_eq!(serial.emitted().as_slice(), b"Driver being loaded\n");

    // Recompute the checksum independently over the header image, with the
    // checksum field zeroed, and compare it with the stored field.
    let zeroed = TableHeader {
        signature: table.hdr.signature,
        revision: table.hdr.revision,
        header_size: table.hdr.header_size,
        crc32: 0,
        reserved: table.hdr.reserved,
    };
    let image = serialize_header(&zeroed);
    assert_eq!(calculate_crc32(image.as_slice()), table.hdr.crc32);
}

#[test]
fn registration_failure_leaves_the_table_untouched() {
    let mut state = DriverState::new();
    let mut table = sample_table(0x4000);
    let crc_before = table.hdr.crc32;
    let mut prio = PriorityState::at_application_level();
    let mut serial = Serial::new();

    let failure = Status::from_code(0x8000_0000_0000_0009);
    let status = efi_main(&mut state, &mut table, &mut prio, &mut serial, 0x9000, failure);
    assert_eq!(status.code, failure.code);
    assert_eq!(state.phase, Phase::Uninitialized);
    assert_eq!(table.get_variable, 0x4000);
    assert_eq!(table.hdr.crc32, crc_before);
    assert_eq!(
        serial.emitted().as_slice(),
        b"Driver being loaded\ncreate_event_ex failed : 0x8000000000000009\n".as_slice()
    );
}

#[test]
fn reinstalling_the_same_pointer_is_rejected_up_front() {
    let table = sample_table(0x9000);
    assert!(!install_allowed(&table, 0x9000));
    assert!(install_allowed(&table, 0x9001));
    // The slot was never touched by the check itself.
    assert_eq!(table.get_variable, 0x9000);
}

#[test]
fn relocation_adds_the_delta_exactly_once() {
    let mut state = DriverState::new();
    let mut table = sample_table(0x1234);
    let mut prio = PriorityState::at_application_level();
    let mut serial = Serial::new();
    efi_main(&mut state, &mut table, &mut prio, &mut serial, 0x9000, Status::success());
    assert_eq!(state.captured, 0x1234);

    let mut serial = Serial::new();
    handle_set_virtual_address_map(
        &mut state,
        &mut serial,
        Some(0x5000),
        0x10000,
        Status::success(),
    );
    assert_eq!(state.captured, 0x1234 + 0x10000);
    assert_eq!(state.phase, Phase::Relocated);
    assert_eq!(
        serial.emitted().as_slice(),
        b"GetVariable relocated from 0x001234 to 0x011234\n".as_slice()
    );
}

#[test]
fn full_lifecycle_keeps_forwarding() {
    // Install, intercept twice, relocate: the hook lives through the whole
    // boot flow and the records arrive in order.
    let mut state = DriverState::new();
    let mut table = sample_table(0x4000);
    let mut prio = PriorityState::at_application_level();
    let mut serial = Serial::new();
    efi_main(&mut state, &mut table, &mut prio, &mut serial, 0x9000, Status::success());

    let name = [0u16; 64];
    let guid = sample_guid();
    handle_get_variable(&mut serial, &name[..], &guid, Some(1), Status::success());
    handle_set_virtual_address_map(&mut state, &mut serial, Some(0x5000), 0x1000, Status::success());
    handle_get_variable(&mut serial, &name[..], &guid, Some(2), Status::success());

    assert_eq!(state.phase, Phase::Relocated);
    assert_eq!(state.captured, 0x5000);
    let text = String::from_utf8(serial.emitted().clone()).unwrap();
    let lines: Vec<&str> = text.lines().collect();
    assert_eq!(lines.len(), 4);
    assert_eq!(lines[0], "Driver being loaded");
    assert!(lines[1].contains("Size=00000001"));
    assert_eq!(lines[2], "GetVariable relocated from 0x004000 to 0x005000");
    assert!(lines[3].contains("Size=00000002"));
}

#[test]
fn guid_fields_round_trip() {
    let guid = sample_guid();
    let fields = guid.as_fields();
    assert_eq!(fields.0, 0x12345678);
    assert_eq!(fields.1, 0x1234);
    assert_eq!(fields.2, 0x5678);
    assert_eq!(fields.3, 0x9A);
    assert_eq!(fields.4, 0xBC);
    assert_eq!(fields.5, [0xDE, 0xF0, 0x12, 0x34, 0x56, 0x78]);
}

#[test]
fn crc32_matches_the_reference_vector() {
    assert_eq!(calculate_crc32(b"123456789"), 0xCBF4_3926);
}

#[test]
fn hex_rendering_pads_and_grows() {
    let mut out: Vec<u8> = Vec::new();
    push_hex(&mut out, 0xABC, 8, false);
    assert_eq!(out.as_slice(), b"00000abc");

    let mut out: Vec<u8> = Vec::new();
    push_hex(&mut out, 0xABC, 2, true);
    assert_eq!(out.as_slice(), b"ABC");

    let mut out: Vec<u8> = Vec::new();
    push_hex(&mut out, 0, 1, false);
    assert_eq!(out.as_slice(), b"0");
}

#[test]
fn status_error_bit_is_the_high_bit() {
    assert!(!Status::from_code(0x7FFF_FFFF_FFFF_FFFF).is_error());
    assert!(Status::from_code(0x8000_0000_0000_0000).is_error());
    assert!(!Status::success().is_error());
}
