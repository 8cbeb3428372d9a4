use nes_cartridge::rom::{RomReadError, ROM};

fn header(trailing: usize) -> Vec<u8> {
    let mut rom = vec![0; 16 + trailing];
    rom[0] = 0x4e;
    rom[1] = 0x45;
    rom[2] = 0x53;
    rom[3] = 0x1a;
    rom
}

#[test]
fn rom_short_input_is_refused() {
    assert!(matches!(ROM::new(vec![0x4e, 0x45]), Err(RomReadError::TooShort)));
}

#[test]
fn rom_bad_signature_is_refused_at_its_position() {
    let mut bytes = header(0);
    bytes[2] = 0x54;
    assert!(matches!(ROM::new(bytes), Err(RomReadError::InvalidHeader { index: 2 })));
}

#[test]
fn rom_blank_header_has_empty_regions() {
    let rom = ROM::new(header(0)).unwrap();
    assert!(rom.trainer().is_none());
    assert!(rom.prg_rom().is_empty());
    assert!(rom.chr_rom().is_empty());
    assert!(rom.inst_rom().is_none());
    assert!(rom.prom().is_none());
}

#[test]
fn rom_takes_out_the_trainer() {
    let mut bytes = header(512);
    bytes[6] = 0b100;
    bytes[16] = 0xaa;
    bytes[527] = 0x55;
    let rom = ROM::new(bytes).unwrap();
    let trainer = rom.trainer().unwrap();
    assert_eq!(trainer[0], 0xaa);
    assert_eq!(trainer[511], 0x55);
}

#[test]
fn rom_short_trainer_is_refused_at_flag_byte() {
    let mut bytes = header(100);
    bytes[6] = 0b100;
    assert!(matches!(ROM::new(bytes), Err(RomReadError::InvalidHeader { index: 6 })));
}
