//! Classification of the 4-byte little-endian magic number that opens every
//! ZIP record.

use crate::le_bytes::{spec_u32_le, u32_from_le_bytes};
use crate::Error;
use vstd::prelude::*;

verus! {

/// The magic that opens a local file header record.
pub const LOCAL_FILE_HEADER_MAGIC: u32 = 0x04034b50;

/// The magic that opens a central directory file header record.
pub const CENTRAL_FILE_HEADER_MAGIC: u32 = 0x02014b50;

/// The magic that opens the end-of-central-directory record.
pub const CENTRAL_DIR_END_MAGIC: u32 = 0x06054b50;

/// The kind of ZIP record a 4-byte magic number announces.
#[derive(Clone, Copy, Debug, PartialEq, Eq, Structural)]
pub enum Signature {
    /// Any 32-bit value that is not one of the known magics, including zero.
    Unknown,
    /// A local file header record follows.
    LocalFileHeader,
    /// A central directory file header record follows.
    CentralFileHeader,
    /// The end-of-central-directory record follows.
    CentralDirEnd,
}

impl Signature {
    /// The tag that `classify` assigns to a 32-bit word.
    pub open spec fn spec_classify(word: u32) -> Signature {
        if word == LOCAL_FILE_HEADER_MAGIC {
            Signature::LocalFileHeader
        } else if word == CENTRAL_FILE_HEADER_MAGIC {
            Signature::CentralFileHeader
        } else if word == CENTRAL_DIR_END_MAGIC {
            Signature::CentralDirEnd
        } else {
            Signature::Unknown
        }
    }

    /// The 32-bit word a tag stands for on the wire; `Unknown` stands for no
    /// particular word and encodes as zero.
    pub open spec fn spec_word(self) -> u32 {
        match self {
            Signature::Unknown => 0,
            Signature::LocalFileHeader => LOCAL_FILE_HEADER_MAGIC,
            Signature::CentralFileHeader => CENTRAL_FILE_HEADER_MAGIC,
            Signature::CentralDirEnd => CENTRAL_DIR_END_MAGIC,
        }
    }

    /// Maps the three known magic numbers to their tags and every other word
    /// to `Unknown`. Total: always succeeds.
    pub fn classify(word: u32) -> (r: Signature)
        ensures
            r == Signature::spec_classify(word),
    {
        if word == LOCAL_FILE_HEADER_MAGIC {
            Signature::LocalFileHeader
        } else if word == CENTRAL_FILE_HEADER_MAGIC {
            Signature::CentralFileHeader
        } else if word == CENTRAL_DIR_END_MAGIC {
            Signature::CentralDirEnd
        } else {
            Signature::Unknown
        }
    }

    /// Reassembles a little-endian `u32` from four bytes and classifies it.
    pub fn classify_bytes(b0: u8, b1: u8, b2: u8, b3: u8) -> (r: Signature)
        ensures
            r == Signature::spec_classify((b0 + b1 * 0x100 + b2 * 0x10000 + b3 * 0x1000000) as u32),
    {
        Signature::classify(u32_from_le_bytes(b0, b1, b2, b3))
    }

    /// Classifies the first four bytes of `bytes`; fails when fewer than four
    /// bytes are supplied.
    pub fn parse(bytes: &[u8]) -> (r: Result<Signature, Error>)
        ensures
            match r {
                Ok(s) => bytes@.len() >= 4 && s == Signature::spec_classify(
                    spec_u32_le(bytes@, 0),
                ),
                Err(e) => e == Error::InvalidSignature && bytes@.len() < 4,
            },
    {
        if bytes.len() < 4 {
            return Err(Error::InvalidSignature);
        }
        Ok(Signature::classify_bytes(bytes[0], bytes[1], bytes[2], bytes[3]))
    }
}

/// `Unknown` is the tag a fresh, unclassified record slot carries.
impl Default for Signature {
    fn default() -> (r: Signature)
        ensures
            r == Signature::Unknown,
    {
        Signature::Unknown
    }
}

} // verus!
