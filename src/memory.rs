//! The decoded cartridge descriptor and the decoder that builds it.
use crate::header::{
    assemble_mapper_number, chr_size_field, decode_rom_size, detect_dialect, dialect_of,
    extract_trainer, find_signature_mismatch, first_signature_mismatch, four_screen_bit,
    mapper_number_of, merge_chr_size, merge_prg_size, prg_size_field, read_four_screen,
    read_trainer_present, read_vertical_mirroring, rom_units, signature, trainer_bit,
    vertical_mirroring_bit, HEADER_LEN, TRAINER_LEN,
};
use vstd::prelude::*;

verus! {

/// Why an image could not be decoded.
#[derive(Clone, Copy, Debug, PartialEq, Eq, Structural)]
pub enum RomReadError {
    /// Fewer than 16 bytes were supplied.
    TooShort,
    /// The byte at `index` broke the header's structure: a signature byte (0 to 3),
    /// or the trainer flag (6) when the trainer block is cut short.
    InvalidHeader { index: usize },
}

/// The error that decoding `b` ends with, if any.
pub open spec fn decode_error(b: Seq<u8>) -> Option<RomReadError> {
    if b.len() < HEADER_LEN {
        Some(RomReadError::TooShort)
    } else {
        match first_signature_mismatch(b) {
            Some(i) => Some(RomReadError::InvalidHeader { index: i as usize }),
            None => if trainer_bit(b[6]) && b.len() < HEADER_LEN + TRAINER_LEN {
                Some(RomReadError::InvalidHeader { index: 6 })
            } else {
                None
            },
        }
    }
}

/// The mapper number that the header of `b` encodes.
pub open spec fn header_mapper_number(b: Seq<u8>) -> u16 {
    mapper_number_of(b[6], b[7], b[8], dialect_of(b[7]))
}

/// The PRG-ROM size of `b`, in units of 16384 bytes.
pub open spec fn header_prg_units(b: Seq<u8>) -> nat {
    rom_units(prg_size_field(b[4], b[9], dialect_of(b[7])))
}

/// The CHR-ROM size of `b`, in units of 8192 bytes.
pub open spec fn header_chr_units(b: Seq<u8>) -> nat {
    rom_units(chr_size_field(b[5], b[9], dialect_of(b[7])))
}

/// The trainer block of `b`: the 512 bytes after the header when byte 6 announces one.
pub open spec fn header_trainer(b: Seq<u8>) -> Option<Seq<u8>> {
    if trainer_bit(b[6]) {
        Some(b.subrange(HEADER_LEN as int, (HEADER_LEN + TRAINER_LEN) as int))
    } else {
        None
    }
}

/// `r` is the outcome of decoding `b`: the error that `b` ends with, or the
/// descriptor of its header.
pub open spec fn decodes_to(b: Seq<u8>, r: Result<CartridgeData, RomReadError>) -> bool {
    match r {
        Ok(c) => decode_error(b) is None && c.describes(b),
        Err(e) => decode_error(b) == Some(e),
    }
}

/// `r1` and `r2` are the same error, or descriptors equal in every field.
pub open spec fn same_outcome(
    r1: Result<CartridgeData, RomReadError>,
    r2: Result<CartridgeData, RomReadError>,
) -> bool {
    match (r1, r2) {
        (Ok(c1), Ok(c2)) => {
            &&& c1.spec_trainer() == c2.spec_trainer()
            &&& c1.spec_prg_rom() == c2.spec_prg_rom()
            &&& c1.spec_chr_rom() == c2.spec_chr_rom()
            &&& c1.spec_prg_rom_size() == c2.spec_prg_rom_size()
            &&& c1.spec_chr_rom_size() == c2.spec_chr_rom_size()
            &&& c1.spec_mapper_number() == c2.spec_mapper_number()
            &&& c1.spec_vertical_mirroring() == c2.spec_vertical_mirroring()
            &&& c1.spec_four_screen_vram() == c2.spec_four_screen_vram()
        },
        (Err(e1), Err(e2)) => e1 == e2,
        _ => false,
    }
}

/// A decoded cartridge image. Every field is fixed when the image is decoded.
pub struct CartridgeData {
    trainer: Option<[u8; 512]>,
    /// Program ROM; left empty for the loading stage to fill.
    prg_rom: Vec<u8>,
    /// Graphics ROM; left empty for the loading stage to fill.
    chr_rom: Vec<u8>,
    /// In units of 16384 bytes.
    prg_rom_size: u128,
    /// In units of 8192 bytes.
    chr_rom_size: u128,
    mapper_number: u16,
    /// Vertical when set, horizontal when clear.
    vertical_mirroring: bool,
    /// When set, the mirroring flag does not apply.
    four_screen_vram: bool,
}

impl CartridgeData {
    /// The trainer block, as a sequence.
    pub closed spec fn spec_trainer(&self) -> Option<Seq<u8>> {
        match self.trainer {
            Some(t) => Some(t@),
            None => None,
        }
    }

    /// What the program ROM buffer holds.
    pub closed spec fn spec_prg_rom(&self) -> Seq<u8> {
        self.prg_rom@
    }

    /// What the graphics ROM buffer holds.
    pub closed spec fn spec_chr_rom(&self) -> Seq<u8> {
        self.chr_rom@
    }

    /// The PRG-ROM size in units of 16384 bytes.
    pub closed spec fn spec_prg_rom_size(&self) -> nat {
        self.prg_rom_size as nat
    }

    /// The CHR-ROM size in units of 8192 bytes.
    pub closed spec fn spec_chr_rom_size(&self) -> nat {
        self.chr_rom_size as nat
    }

    /// The mapper number.
    pub closed spec fn spec_mapper_number(&self) -> u16 {
        self.mapper_number
    }

    /// The mirroring flag.
    pub closed spec fn spec_vertical_mirroring(&self) -> bool {
        self.vertical_mirroring
    }

    /// The four-screen flag.
    pub closed spec fn spec_four_screen_vram(&self) -> bool {
        self.four_screen_vram
    }

    /// This descriptor is the one that the header of `b` describes.
    pub open spec fn describes(&self, b: Seq<u8>) -> bool {
        &&& self.spec_trainer() == header_trainer(b)
        &&& self.spec_prg_rom() == Seq::<u8>::empty()
        &&& self.spec_chr_rom() == Seq::<u8>::empty()
        &&& self.spec_prg_rom_size() == header_prg_units(b)
        &&& self.spec_chr_rom_size() == header_chr_units(b)
        &&& self.spec_mapper_number() == header_mapper_number(b)
        &&& self.spec_vertical_mirroring() == vertical_mirroring_bit(b[6])
        &&& self.spec_four_screen_vram() == four_screen_bit(b[6])
    }

    /// The trainer block, when the image has one.
    pub fn trainer(&self) -> (r: Option<&[u8; 512]>)
        ensures
            match r {
                Some(t) => self.spec_trainer() == Some(t@),
                None => self.spec_trainer() is None,
            },
    {
        match &self.trainer {
            Some(t) => Some(t),
            None => None,
        }
    }

    /// The program ROM buffer.
    pub fn prg_rom(&self) -> (r: &[u8])
        ensures
            r@ == self.spec_prg_rom(),
    {
        self.prg_rom.as_slice()
    }

    /// The graphics ROM buffer.
    pub fn chr_rom(&self) -> (r: &[u8])
        ensures
            r@ == self.spec_chr_rom(),
    {
        self.chr_rom.as_slice()
    }

    /// The PRG-ROM size in units of 16384 bytes.
    pub fn prg_rom_size(&self) -> (r: u128)
        ensures
            r as nat == self.spec_prg_rom_size(),
    {
        self.prg_rom_size
    }

    /// The CHR-ROM size in units of 8192 bytes.
    pub fn chr_rom_size(&self) -> (r: u128)
        ensures
            r as nat == self.spec_chr_rom_size(),
    {
        self.chr_rom_size
    }

    /// The 12-bit mapper number.
    pub fn mapper_number(&self) -> (r: u16)
        ensures
            r == self.spec_mapper_number(),
    {
        self.mapper_number
    }

    /// Whether nametables mirror vertically (else horizontally).
    pub fn vertical_mirroring(&self) -> (r: bool)
        ensures
            r == self.spec_vertical_mirroring(),
    {
        self.vertical_mirroring
    }

    /// Whether the cartridge provides four-screen VRAM.
    pub fn four_screen_vram(&self) -> (r: bool)
        ensures
            r == self.spec_four_screen_vram(),
    {
        self.four_screen_vram
    }

    /// Decodes the header of a cartridge image and, when it announces one, its trainer.
    pub fn new(filebytes: Vec<u8>) -> (r: Result<CartridgeData, RomReadError>)
        ensures
            filebytes@.len() < HEADER_LEN ==> r == Err::<CartridgeData, RomReadError>(
                RomReadError::TooShort,
            ),
            decodes_to(filebytes@, r),
    {
        if filebytes.len() < HEADER_LEN {
            return Err(RomReadError::TooShort);
        }
        if let Some(index) = find_signature_mismatch(&filebytes) {
            return Err(RomReadError::InvalidHeader { index });
        }
        let byte4 = filebytes[4];
        let byte5 = filebytes[5];
        let byte6 = filebytes[6];
        let byte7 = filebytes[7];
        let byte8 = filebytes[8];
        let byte9 = filebytes[9];

        let trainer = if read_trainer_present(byte6) {
            if filebytes.len() < HEADER_LEN + TRAINER_LEN {
                return Err(RomReadError::InvalidHeader { index: 6 });
            }
            Some(extract_trainer(&filebytes))
        } else {
            None
        };
        let vertical_mirroring = read_vertical_mirroring(byte6);
        let four_screen_vram = read_four_screen(byte6);

        let dialect = detect_dialect(byte7);
        let mapper_number = assemble_mapper_number(byte6, byte7, byte8, dialect);
        let prg_rom_size = decode_rom_size(merge_prg_size(byte4, byte9, dialect));
        let chr_rom_size = decode_rom_size(merge_chr_size(byte5, byte9, dialect));

        Ok(CartridgeData {
            trainer,
            prg_rom: Vec::new(),
            chr_rom: Vec::new(),
            prg_rom_size,
            chr_rom_size,
            mapper_number,
            vertical_mirroring,
            four_screen_vram,
        })
    }
}

/// An image of at least 16 bytes whose first four bytes are not the signature is
/// refused with the position of the first byte that differs from it.
pub proof fn lemma_signature_mismatch_reported(b: Seq<u8>)
    requires
        b.len() >= HEADER_LEN,
        exists|i: int| 0 <= i < 4 && b[i] != signature()[i],
    ensures
        decode_error(b) matches Some(RomReadError::InvalidHeader { index }) && {
            &&& index < 4
            &&& b[index as int] != signature()[index as int]
            &&& forall|j: int| 0 <= j < index ==> b[j] == signature()[j]
        },
{
    reveal_with_fuel(crate::header::signature_mismatch_from, 5);
    let i = choose|i: int| 0 <= i < 4 && b[i] != signature()[i];
    assert(b[i] != signature()[i]);
}

/// With a valid signature and the trainer bit of byte 6 set, the trainer is
/// present exactly when 512 bytes follow the header; otherwise decoding is
/// refused at index 6.
pub proof fn lemma_trainer_needs_room(b: Seq<u8>)
    requires
        b.len() >= HEADER_LEN,
        forall|i: int| 0 <= i < 4 ==> b[i] == signature()[i],
        trainer_bit(b[6]),
    ensures
        b.len() >= HEADER_LEN + TRAINER_LEN ==> decode_error(b) is None && header_trainer(b)
            is Some,
        b.len() < HEADER_LEN + TRAINER_LEN ==> decode_error(b) == Some(
            RomReadError::InvalidHeader { index: 6 },
        ),
{
    reveal_with_fuel(crate::header::signature_mismatch_from, 5);
}

/// A decoded descriptor has vertical mirroring exactly when bit 0 of byte 6 is
/// set, whatever the other bits of the header.
pub proof fn lemma_vertical_mirroring_is_bit0(b: Seq<u8>, c: CartridgeData)
    requires
        decodes_to(b, Ok(c)),
    ensures
        c.spec_vertical_mirroring() == (b[6] & 0x01 == 0x01),
{
}

/// A decoded descriptor has four-screen VRAM exactly when bit 3 of byte 6 is
/// set, whatever bit 0 and the other bits of the header are.
pub proof fn lemma_four_screen_is_bit3(b: Seq<u8>, c: CartridgeData)
    requires
        decodes_to(b, Ok(c)),
    ensures
        c.spec_four_screen_vram() == (b[6] & 0x08 == 0x08),
{
}

/// Decoding is a function of the input bytes alone: two outcomes of decoding
/// the same bytes are the same error or descriptors equal in every field.
pub proof fn lemma_decoding_is_deterministic(
    b: Seq<u8>,
    r1: Result<CartridgeData, RomReadError>,
    r2: Result<CartridgeData, RomReadError>,
)
    requires
        decodes_to(b, r1),
        decodes_to(b, r2),
    ensures
        same_outcome(r1, r2),
{
}

} // verus!
