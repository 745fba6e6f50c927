use cubeb_coreaudio_samples::classes::{class_to_str, terminaltype_to_str, transporttype_to_str};
use cubeb_coreaudio_samples::render::{append_f64_bits, dec_u64};
use cubeb_coreaudio_samples::walker::class_line;

#[test]
fn decimal_rendering_is_exact() {
    assert_eq!(dec_u64(0), "0");
    assert_eq!(dec_u64(7), "7");
    assert_eq!(dec_u64(1234567890), "1234567890");
    assert_eq!(dec_u64(u64::MAX), "18446744073709551615");
}

#[test]
fn class_table_names_known_tags() {
    assert_eq!(class_to_str(0x61646576), Some("AudioDevice"));
    assert_eq!(class_to_str(0x61737973), Some("AudioSystemObject"));
    assert_eq!(class_to_str(0x41424344), None);
}

#[test]
fn transport_table_has_a_fallback() {
    assert_eq!(transporttype_to_str(0x626c746e), "BuiltIn");
    assert_eq!(transporttype_to_str(0x68646d69), "HDMI");
    assert_eq!(transporttype_to_str(0xdeadbeef), "Unexpected TransportType");
    assert_eq!(transporttype_to_str(0), "Unknown");
}

#[test]
fn terminal_table_falls_back_to_hex_tags() {
    assert_eq!(terminaltype_to_str(0x6d696372), "Microphone");
    assert_eq!(terminaltype_to_str(0), "Unknown");
    assert_eq!(terminaltype_to_str(0x7), "0x0007");
    assert_eq!(terminaltype_to_str(0x123456), "0x123456");
}

#[test]
fn class_lines_show_status_name_or_tag() {
    assert_eq!(class_line("BaseClass", Err(-50)), "BaseClass: Err(-50)");
    assert_eq!(class_line("Class", Ok(0x61646576)), "Class (Known): \"AudioDevice\"");
    assert_eq!(class_line("Class", Ok(0x41424344)), "Class (FourCC): \"ABCD\"");
    assert_eq!(class_line("Class", Ok(1)), "Class (FourCC): \"\\x00\\x00\\x00\\x01\"");
}

#[test]
fn float_bits_render_whole_numbers_or_raw_bits() {
    let mut s = String::new();
    append_f64_bits(&mut s, 48000.0f64.to_bits());
    assert_eq!(s, "48000.0");
    let mut s = String::new();
    append_f64_bits(&mut s, (-2.0f64).to_bits());
    assert_eq!(s, "-2.0");
    let mut s = String::new();
    append_f64_bits(&mut s, 0.0f64.to_bits());
    assert_eq!(s, "0.0");
    let mut s = String::new();
    append_f64_bits(&mut s, 1.5f64.to_bits());
    assert_eq!(s, "0x3FF8000000000000");
    let mut s = String::new();
    append_f64_bits(&mut s, f64::NAN.to_bits());
    assert!(s.starts_with("0x"));
}
