//! The image split into its byte regions, without the decoded header fields.
use crate::header::{
    extract_trainer, find_signature_mismatch, first_signature_mismatch, read_trainer_present,
    trainer_bit, HEADER_LEN, TRAINER_LEN,
};
use vstd::prelude::*;

verus! {

/// Why an image could not be split into its regions.
#[derive(Clone, Copy, Debug, PartialEq, Eq, Structural)]
pub enum RomReadError {
    /// Fewer than 16 bytes were supplied.
    TooShort,
    /// The byte at `index` broke the header's structure: a signature byte (0 to 3),
    /// or the trainer flag (6) when the trainer block is cut short.
    InvalidHeader { index: usize },
}

/// The error that reading `b` ends with, if any.
pub open spec fn read_error(b: Seq<u8>) -> Option<RomReadError> {
    if b.len() < HEADER_LEN {
        Some(RomReadError::TooShort)
    } else {
        match first_signature_mismatch(b) {
            Some(i) => Some(RomReadError::InvalidHeader { index: i as usize }),
            None => if trainer_bit(b[6]) && b.len() < HEADER_LEN + TRAINER_LEN {
                Some(RomReadError::InvalidHeader { index: 6 })
            } else {
                None
            },
        }
    }
}

/// The byte regions of a cartridge image.
pub struct ROM {
    trainer: Option<[u8; 512]>,
    /// Program ROM; left empty for the loading stage to fill.
    prg_rom: Vec<u8>,
    /// Graphics ROM; left empty for the loading stage to fill.
    chr_rom: Vec<u8>,
    /// PlayChoice INST-ROM; not read from the image.
    inst_rom: Option<[u8; 8192]>,
    /// PlayChoice PROM; not read from the image.
    prom: Option<[u8; 16]>,
}

impl ROM {
    /// The trainer block, as a sequence.
    pub closed spec fn spec_trainer(&self) -> Option<Seq<u8>> {
        match self.trainer {
            Some(t) => Some(t@),
            None => None,
        }
    }

    /// What the program ROM buffer holds.
    pub closed spec fn spec_prg_rom(&self) -> Seq<u8> {
        self.prg_rom@
    }

    /// What the graphics ROM buffer holds.
    pub closed spec fn spec_chr_rom(&self) -> Seq<u8> {
        self.chr_rom@
    }

    /// The INST-ROM, as a sequence.
    pub closed spec fn spec_inst_rom(&self) -> Option<Seq<u8>> {
        match self.inst_rom {
            Some(t) => Some(t@),
            None => None,
        }
    }

    /// The PROM, as a sequence.
    pub closed spec fn spec_prom(&self) -> Option<Seq<u8>> {
        match self.prom {
            Some(t) => Some(t@),
            None => None,
        }
    }

    /// The trainer block, when the image has one.
    pub fn trainer(&self) -> (r: Option<&[u8; 512]>)
        ensures
            match r {
                Some(t) => self.spec_trainer() == Some(t@),
                None => self.spec_trainer() is None,
            },
    {
        match &self.trainer {
            Some(t) => Some(t),
            None => None,
        }
    }

    /// The program ROM buffer.
    pub fn prg_rom(&self) -> (r: &[u8])
        ensures
            r@ == self.spec_prg_rom(),
    {
        self.prg_rom.as_slice()
    }

    /// The graphics ROM buffer.
    pub fn chr_rom(&self) -> (r: &[u8])
        ensures
            r@ == self.spec_chr_rom(),
    {
        self.chr_rom.as_slice()
    }

    /// The PlayChoice INST-ROM, when present.
    pub fn inst_rom(&self) -> (r: Option<&[u8; 8192]>)
        ensures
            match r {
                Some(t) => self.spec_inst_rom() == Some(t@),
                None => self.spec_inst_rom() is None,
            },
    {
        match &self.inst_rom {
            Some(t) => Some(t),
            None => None,
        }
    }

    /// The PlayChoice PROM, when present.
    pub fn prom(&self) -> (r: Option<&[u8; 16]>)
        ensures
            match r {
                Some(t) => self.spec_prom() == Some(t@),
                None => self.spec_prom() is None,
            },
    {
        match &self.prom {
            Some(t) => Some(t),
            None => None,
        }
    }

    /// Checks the header of a cartridge image and takes out its trainer, if announced.
    pub fn new(filebytes: Vec<u8>) -> (r: Result<ROM, RomReadError>)
        ensures
            match r {
                Ok(rom) => {
                    &&& read_error(filebytes@) is None
                    &&& rom.spec_trainer() == (if trainer_bit(filebytes@[6]) {
                        Some(filebytes@.subrange(HEADER_LEN as int, (HEADER_LEN + TRAINER_LEN) as int))
                    } else {
                        None
                    })
                    &&& rom.spec_prg_rom() == Seq::<u8>::empty()
                    &&& rom.spec_chr_rom() == Seq::<u8>::empty()
                    &&& rom.spec_inst_rom() is None
                    &&& rom.spec_prom() is None
                },
                Err(e) => read_error(filebytes@) == Some(e),
            },
    {
        if filebytes.len() < HEADER_LEN {
            return Err(RomReadError::TooShort);
        }
        if let Some(index) = find_signature_mismatch(&filebytes) {
            return Err(RomReadError::InvalidHeader { index });
        }
        let trainer = if read_trainer_present(filebytes[6]) {
            if filebytes.len() < HEADER_LEN + TRAINER_LEN {
                return Err(RomReadError::InvalidHeader { index: 6 });
            }
            Some(extract_trainer(&filebytes))
        } else {
            None
        };
        Ok(ROM { trainer, prg_rom: Vec::new(), chr_rom: Vec::new(), inst_rom: None, prom: None })
    }
}

} // verus!
