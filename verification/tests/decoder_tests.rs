use uefi_var_monitor::convert_variable_name;

#[test]
fn decodes_up_to_the_null_terminator() {
    let mut buf = [0u16; 64];
    buf[0] = b'T' as u16;
    buf[1] = b'E' as u16;
    buf[2] = b'S' as u16;
    buf[3] = b'T' as u16;
    // buf[4] stays 0: the terminator.
    let name = convert_variable_name(&buf[..]);
    assert_eq!(name.as_slice(), b"TEST");
}

#[test]
fn empty_name_decodes_to_nothing() {
    let buf = [0u16; 64];
    let name = convert_variable_name(&buf[..]);
    assert_eq!(name.len(), 0);
}

#[test]
fn missing_terminator_stops_at_the_window_end() {
    let buf = [b'A' as u16; 64];
    let name = convert_variable_name(&buf[..]);
    assert_eq!(name.len(), 64);
    assert!(name.iter().all(|&b| b == b'A'));
}

#[test]
fn wide_characters_are_narrowed_to_their_low_byte() {
    let mut buf = [0u16; 64];
    buf[0] = 0x0141; // narrows to 0x41
    buf[1] = 0x0100; // narrows to a null byte, but is not a terminator
    buf[2] = b'Z' as u16;
    let name = convert_variable_name(&buf[..]);
    assert_eq!(name.as_slice(), &[0x41, 0x00, b'Z']);
}
