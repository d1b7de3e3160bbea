use uefi_var_monitor::{log_error, log_info, Serial};

#[test]
fn test_log_macro() {
    let mut serial = Serial::new();
    log_info(&mut serial, "Test message");
    let formatted = format!("Formatted {}", "string");
    log_info(&mut serial, &formatted);
    assert_eq!(
        serial.emitted().as_slice(),
        b"[INFO] Test message\n[INFO] Formatted string\n"
    );
}

#[test]
fn write_byte_and_bytes_append_in_order() {
    let mut serial = Serial::new();
    serial.write_byte(b'a');
    serial.write_bytes(b"bcd");
    serial.write_byte(b'e');
    assert_eq!(serial.emitted().as_slice(), b"abcde");
}

#[test]
fn log_error_prefixes_the_message() {
    let mut serial = Serial::new();
    log_error(&mut serial, "boom");
    assert_eq!(serial.emitted().as_slice(), b"[ERROR] boom\n");
}

#[test]
fn log_lines_accumulate() {
    let mut serial = Serial::new();
    log_error(&mut serial, "first");
    log_info(&mut serial, "second");
    assert_eq!(
        serial.emitted().as_slice(),
        b"[ERROR] first\n[INFO] second\n"
    );
}
