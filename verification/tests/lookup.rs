use tasd::lookup::{
    attribution_lut, console_region_lut, console_type_lut, controller_type_lut,
    game_identifier_lut, identifier_encoding_lut, input_moment_lut, memory_init_data_lut,
    memory_init_device_lut, transition_index_lut, transition_kind_lut,
};

fn some(text: &str) -> Option<String> {
    Some(text.to_string())
}

#[test]
fn console_types_have_names() {
    assert_eq!(console_type_lut(0x01), some("NES"));
    assert_eq!(console_type_lut(0x02), some("SNES"));
    assert_eq!(console_type_lut(0x09), some("A2600"));
    assert_eq!(console_type_lut(0xFF), some("Custom"));
    assert_eq!(console_type_lut(0x00), None);
    assert_eq!(console_type_lut(0x0A), None);
}

#[test]
fn console_regions_have_names() {
    assert_eq!(console_region_lut(0x01), some("NTSC"));
    assert_eq!(console_region_lut(0x02), some("PAL"));
    assert_eq!(console_region_lut(0x03), None);
}

#[test]
fn attributions_have_names() {
    assert_eq!(attribution_lut(0x01), some("Author"));
    assert_eq!(attribution_lut(0x03), some("TASD File Creator"));
    assert_eq!(attribution_lut(0xFF), some("Other"));
    assert_eq!(attribution_lut(0x05), None);
}

#[test]
fn memory_init_codes_have_names() {
    assert_eq!(memory_init_data_lut(0x01), some("No initialization required"));
    assert_eq!(memory_init_data_lut(0x04), some("00 00 00 00 FF FF FF FF (repeating)"));
    assert_eq!(memory_init_data_lut(0xFF), some("Custom"));
    assert_eq!(memory_init_data_lut(0x06), None);
    assert_eq!(memory_init_device_lut(0x0101), some("NES CPU RAM"));
    assert_eq!(memory_init_device_lut(0x0902), some("A2600 Cartridge Save Data"));
    assert_eq!(memory_init_device_lut(0xFFFF), some("Custom/Other Device"));
    assert_eq!(memory_init_device_lut(0x0301), None);
}

#[test]
fn identifiers_have_names() {
    assert_eq!(game_identifier_lut(0x01), some("MD5 Hash"));
    assert_eq!(game_identifier_lut(0x07), some("SHA512/224 Hash"));
    assert_eq!(game_identifier_lut(0x0E), some("SHAKE-256 Hash"));
    assert_eq!(game_identifier_lut(0xFF), some("Other"));
    assert_eq!(game_identifier_lut(0x0F), None);
    assert_eq!(identifier_encoding_lut(0x01), some("Raw Binary"));
    assert_eq!(identifier_encoding_lut(0x04), some("Base 64"));
    assert_eq!(identifier_encoding_lut(0x05), None);
}

#[test]
fn controllers_have_names() {
    assert_eq!(controller_type_lut(0x0101), some("NES Standard Controller"));
    assert_eq!(controller_type_lut(0x0105), some("(RESERVED) Famicom Family BASIC Keyboard"));
    assert_eq!(controller_type_lut(0x0306), some("(RESERVED) N64 Voice Recognition Unit (VRU)"));
    assert_eq!(controller_type_lut(0x0903), some("A2600 Keyboard Controller"));
    assert_eq!(controller_type_lut(0xFFFF), some("Other/Unspecified"));
    assert_eq!(controller_type_lut(0x0100), None);
    assert_eq!(controller_type_lut(0x0000), None);
}

#[test]
fn index_and_transition_codes_have_names() {
    assert_eq!(input_moment_lut(0x01), some("Frame"));
    assert_eq!(input_moment_lut(0x04), some("Microseconds * 10"));
    assert_eq!(input_moment_lut(0x05), None);
    assert_eq!(transition_index_lut(0x02), some("Cycle Count"));
    assert_eq!(transition_index_lut(0x05), some("INPUT_CHUNK Index"));
    assert_eq!(transition_index_lut(0x06), None);
    assert_eq!(transition_kind_lut(0x01), some("Soft Reset"));
    assert_eq!(transition_kind_lut(0x03), some("Restart TASD File"));
    assert_eq!(transition_kind_lut(0xFF), some("Packet Derived"));
    assert_eq!(transition_kind_lut(0x04), None);
}
