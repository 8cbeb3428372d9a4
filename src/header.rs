//! Field-level rules of the 16-byte cartridge header.
use vstd::arithmetic::power2::{lemma2_to64, lemma_pow2_strictly_increases, pow2};
use vstd::bits::lemma_u64_shl_is_mul;
use vstd::prelude::*;

verus! {

/// Which interpretation applies to header bytes 8 to 15.
#[derive(Clone, Copy, Debug, PartialEq, Eq, Structural)]
pub enum FormatDialect {
    /// Plain iNES layout: bytes 8 to 15 are padding.
    Legacy,
    /// NES 2.0 layout: bytes 8 to 15 carry further size, mapper and timing fields.
    Extended,
}

/// The dialect that byte 7 selects: bits 2 and 3 equal to `0b10` mean NES 2.0.
pub open spec fn dialect_of(byte7: u8) -> FormatDialect {
    if (byte7 & 0x0C) >> 2 == 2 {
        FormatDialect::Extended
    } else {
        FormatDialect::Legacy
    }
}

/// Reads the dialect marker out of header byte 7.
pub fn detect_dialect(byte7: u8) -> (d: FormatDialect)
    ensures
        d == dialect_of(byte7),
{
    if (byte7 & 0x0C) >> 2 == 2 {
        FormatDialect::Extended
    } else {
        FormatDialect::Legacy
    }
}

/// Length of the fixed header at the start of every image.
pub const HEADER_LEN: usize = 16;

/// Length of the optional trainer block that follows the header.
pub const TRAINER_LEN: usize = 512;

/// The four signature bytes: "NES" followed by an MS-DOS end-of-file mark.
pub open spec fn signature() -> Seq<u8> {
    seq![0x4Eu8, 0x45u8, 0x53u8, 0x1Au8]
}

/// The first position at or after `from` (below 4) where `b` leaves the signature.
pub open spec fn signature_mismatch_from(b: Seq<u8>, from: nat) -> Option<nat>
    decreases 4 - from,
{
    if from >= 4 {
        None
    } else if b[from as int] != signature()[from as int] {
        Some(from)
    } else {
        signature_mismatch_from(b, from + 1)
    }
}

/// The first position of bytes 0 to 3 where `b` differs from the signature, if any.
pub open spec fn first_signature_mismatch(b: Seq<u8>) -> Option<nat> {
    signature_mismatch_from(b, 0)
}

/// Byte 6 bit 0: vertical (set) or horizontal (clear) nametable mirroring.
pub open spec fn vertical_mirroring_bit(byte6: u8) -> bool {
    byte6 & 0x01 == 0x01
}

/// Byte 6 bit 1: battery-backed or other persistent memory is present.
pub open spec fn persistent_memory_bit(byte6: u8) -> bool {
    byte6 & 0x02 == 0x02
}

/// Byte 6 bit 2: a 512-byte trainer follows the header.
pub open spec fn trainer_bit(byte6: u8) -> bool {
    byte6 & 0x04 == 0x04
}

/// Byte 6 bit 3: the cartridge provides four-screen VRAM.
pub open spec fn four_screen_bit(byte6: u8) -> bool {
    byte6 & 0x08 == 0x08
}

/// The 12-bit mapper number: byte 6's high nibble in bits 0-3, byte 7's high
/// nibble in bits 4-7 and, in the extended dialect, byte 8's low nibble in bits 8-11.
pub open spec fn mapper_number_of(byte6: u8, byte7: u8, byte8: u8, d: FormatDialect) -> u16 {
    let low = ((byte7 as u16) & 0xF0) | (((byte6 as u16) & 0xF0) >> 4);
    match d {
        FormatDialect::Legacy => low,
        FormatDialect::Extended => low | (((byte8 as u16) & 0x0F) << 8),
    }
}

/// The PRG-ROM size field: byte 4, with byte 9's low nibble above it in the extended dialect.
pub open spec fn prg_size_field(byte4: u8, byte9: u8, d: FormatDialect) -> u16 {
    match d {
        FormatDialect::Legacy => byte4 as u16,
        FormatDialect::Extended => (byte4 as u16) | (((byte9 as u16) & 0x0F) << 8),
    }
}

/// The CHR-ROM size field: byte 5, with byte 9's high nibble above it in the extended dialect.
pub open spec fn chr_size_field(byte5: u8, byte9: u8, d: FormatDialect) -> u16 {
    match d {
        FormatDialect::Legacy => byte5 as u16,
        FormatDialect::Extended => (byte5 as u16) | (((byte9 as u16) & 0xF0) << 4),
    }
}

/// Whether a size field uses the exponent/multiplier notation (its top nibble is `0xF`).
pub open spec fn is_exponent_form(field: u16) -> bool {
    field >> 8 == 0xF
}

/// The unit count a size field stands for: the field itself, or
/// `2^E * (2 * MM + 1)` with `E` in bits 2-7 and `MM` in bits 0-1 for the exponent form.
pub open spec fn rom_units(field: u16) -> nat {
    if is_exponent_form(field) {
        pow2(((field & 0xFF) >> 2) as nat) * (((field & 0x03) * 2 + 1) as nat)
    } else {
        field as nat
    }
}

/// Finds the first of bytes 0 to 3 that differs from the signature.
pub fn find_signature_mismatch(bytes: &Vec<u8>) -> (r: Option<usize>)
    requires
        bytes@.len() >= 4,
    ensures
        match r {
            Some(i) => first_signature_mismatch(bytes@) == Some(i as nat),
            None => first_signature_mismatch(bytes@) is None,
        },
{
    let expected: [u8; 4] = [0x4E, 0x45, 0x53, 0x1A];
    assert(expected@ =~= signature());
    let mut index: usize = 0;
    while index < 4
        invariant
            0 <= index <= 4,
            bytes@.len() >= 4,
            expected@ == signature(),
            first_signature_mismatch(bytes@) == signature_mismatch_from(bytes@, index as nat),
        decreases 4 - index,
    {
        if bytes[index] != expected[index] {
            return Some(index);
        }
        index = index + 1;
    }
    None
}

/// Reads the vertical-mirroring bit of byte 6.
pub fn read_vertical_mirroring(byte6: u8) -> (r: bool)
    ensures
        r == vertical_mirroring_bit(byte6),
{
    byte6 & 0x01 == 0x01
}

/// Reads the persistent-memory bit of byte 6.
pub fn read_persistent_memory(byte6: u8) -> (r: bool)
    ensures
        r == persistent_memory_bit(byte6),
{
    byte6 & 0x02 == 0x02
}

/// Reads the trainer-present bit of byte 6.
pub fn read_trainer_present(byte6: u8) -> (r: bool)
    ensures
        r == trainer_bit(byte6),
{
    byte6 & 0x04 == 0x04
}

/// Reads the four-screen bit of byte 6.
pub fn read_four_screen(byte6: u8) -> (r: bool)
    ensures
        r == four_screen_bit(byte6),
{
    byte6 & 0x08 == 0x08
}

/// Assembles the mapper number from bytes 6, 7 and 8 under the given dialect.
pub fn assemble_mapper_number(byte6: u8, byte7: u8, byte8: u8, d: FormatDialect) -> (r: u16)
    ensures
        r == mapper_number_of(byte6, byte7, byte8, d),
        r < 0x1000,
{
    let low = ((byte7 as u16) & 0xF0) | (((byte6 as u16) & 0xF0) >> 4);
    assert(low < 0x100) by (bit_vector)
        requires
            low == ((byte7 as u16) & 0xF0) | (((byte6 as u16) & 0xF0) >> 4),
    ;
    match d {
        FormatDialect::Legacy => low,
        FormatDialect::Extended => {
            let r = low | (((byte8 as u16) & 0x0F) << 8);
            assert(r < 0x1000) by (bit_vector)
                requires
                    low < 0x100,
                    r == low | (((byte8 as u16) & 0x0F) << 8),
            ;
            r
        },
    }
}

/// Merges the PRG-ROM size field from bytes 4 and 9 under the given dialect.
pub fn merge_prg_size(byte4: u8, byte9: u8, d: FormatDialect) -> (r: u16)
    ensures
        r == prg_size_field(byte4, byte9, d),
{
    match d {
        FormatDialect::Legacy => byte4 as u16,
        FormatDialect::Extended => (byte4 as u16) | (((byte9 as u16) & 0x0F) << 8),
    }
}

/// Merges the CHR-ROM size field from bytes 5 and 9 under the given dialect.
pub fn merge_chr_size(byte5: u8, byte9: u8, d: FormatDialect) -> (r: u16)
    ensures
        r == chr_size_field(byte5, byte9, d),
{
    match d {
        FormatDialect::Legacy => byte5 as u16,
        FormatDialect::Extended => (byte5 as u16) | (((byte9 as u16) & 0xF0) << 4),
    }
}

/// Resolves a merged size field into its unit count, expanding the exponent/multiplier form.
pub fn decode_rom_size(field: u16) -> (r: u128)
    ensures
        r as nat == rom_units(field),
{
    if field >> 8 == 0xF {
        let multiplier: u16 = field & 0x03;
        let exponent: u16 = (field & 0xFF) >> 2;
        assert(exponent < 64 && multiplier < 4) by (bit_vector)
            requires
                multiplier == field & 0x03,
                exponent == (field & 0xFF) >> 2,
        ;
        let e: u64 = exponent as u64;
        proof {
            lemma2_to64();
            lemma_pow2_strictly_increases(e as nat, 64);
            lemma_u64_shl_is_mul(1, e);
        }
        let power: u64 = 1u64 << e;
        let factor: u128 = (multiplier as u128) * 2 + 1;
        assert(power as u128 * factor <= u128::MAX) by (nonlinear_arith)
            requires
                factor <= 7,
                power < 0x10000000000000000u128,
        ;
        (power as u128) * factor
    } else {
        field as u128
    }
}

/// Copies the trainer block, bytes 16 to 527, out of the image.
pub fn extract_trainer(bytes: &Vec<u8>) -> (t: [u8; 512])
    requires
        bytes@.len() >= HEADER_LEN + TRAINER_LEN,
    ensures
        t@ == bytes@.subrange(HEADER_LEN as int, (HEADER_LEN + TRAINER_LEN) as int),
{
    let mut t: [u8; 512] = [0u8; 512];
    let mut i: usize = 0;
    while i < TRAINER_LEN
        invariant
            0 <= i <= TRAINER_LEN,
            bytes@.len() >= HEADER_LEN + TRAINER_LEN,
            t@.len() == TRAINER_LEN,
            forall|j: int| 0 <= j < i ==> t@[j] == bytes@[HEADER_LEN + j],
        decreases TRAINER_LEN - i,
    {
        t[i] = bytes[HEADER_LEN + i];
        i = i + 1;
    }
    assert(t@ =~= bytes@.subrange(HEADER_LEN as int, (HEADER_LEN + TRAINER_LEN) as int));
    t
}

} // verus!
