use nes_cartridge::header::{
    assemble_mapper_number, decode_rom_size, detect_dialect, merge_chr_size, merge_prg_size,
    read_four_screen, read_persistent_memory, read_trainer_present, read_vertical_mirroring,
    FormatDialect,
};

#[test]
fn dialect_marker_selects_extended_only_for_binary_ten() {
    assert_eq!(detect_dialect(0b1000), FormatDialect::Extended);
    assert_eq!(detect_dialect(0xf8), FormatDialect::Extended);
    assert_eq!(detect_dialect(0b0000), FormatDialect::Legacy);
    assert_eq!(detect_dialect(0b0100), FormatDialect::Legacy);
    assert_eq!(detect_dialect(0b1100), FormatDialect::Legacy);
}

#[test]
fn byte_six_flags_are_independent_bits() {
    assert!(read_vertical_mirroring(0b0001));
    assert!(!read_vertical_mirroring(0b1110));
    assert!(read_persistent_memory(0b0010));
    assert!(!read_persistent_memory(0b1101));
    assert!(read_trainer_present(0b0100));
    assert!(!read_trainer_present(0b1011));
    assert!(read_four_screen(0b1000));
    assert!(!read_four_screen(0b0111));
}

#[test]
fn mapper_number_nibbles() {
    assert_eq!(assemble_mapper_number(0xe0, 0x30, 0x0a, FormatDialect::Legacy), 0x3e);
    assert_eq!(assemble_mapper_number(0xe0, 0x38, 0x0a, FormatDialect::Extended), 0xa3e);
    assert_eq!(assemble_mapper_number(0xff, 0xff, 0xff, FormatDialect::Extended), 0xfff);
    assert_eq!(assemble_mapper_number(0x0f, 0x0f, 0xf0, FormatDialect::Extended), 0);
}

#[test]
fn size_fields_merge_under_dialect() {
    assert_eq!(merge_prg_size(0x12, 0xab, FormatDialect::Legacy), 0x12);
    assert_eq!(merge_prg_size(0x12, 0xab, FormatDialect::Extended), 0xb12);
    assert_eq!(merge_chr_size(0x34, 0xab, FormatDialect::Legacy), 0x34);
    assert_eq!(merge_chr_size(0x34, 0xab, FormatDialect::Extended), 0xa34);
}

#[test]
fn exponent_one_multiplier_one_is_six_units() {
    assert_eq!(decode_rom_size(0xf05), 6);
}

#[test]
fn plain_size_fields_are_unit_counts() {
    assert_eq!(decode_rom_size(0), 0);
    assert_eq!(decode_rom_size(0x0ff), 0xff);
    assert_eq!(decode_rom_size(0xeff), 0xeff);
}

#[test]
fn exponent_form_extremes() {
    assert_eq!(decode_rom_size(0xf00), 1);
    assert_eq!(decode_rom_size(0xf03), 7);
    assert_eq!(decode_rom_size(0xffc), 1u128 << 63);
    assert_eq!(decode_rom_size(0xfff), (1u128 << 63) * 7);
}
