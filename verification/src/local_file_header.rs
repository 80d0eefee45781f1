//! The fixed 30-byte ZIP local-file-header record: a packed little-endian
//! layout decoded field by field from a byte buffer.

use crate::le_bytes::{spec_u16_le, spec_u32_le, u16_from_le_bytes, u32_from_le_bytes};
use crate::signature::{Signature, LOCAL_FILE_HEADER_MAGIC};
use crate::Error;
use vstd::prelude::*;

verus! {

/// The encoded size of a local file header, before the variable-length file
/// name and extra field.
pub const LOCAL_FILE_HEADER_SIZE: usize = 30;

/// The fixed-layout local-file-header record. Fields appear in wire order;
/// each is little-endian when encoded.
#[derive(Clone, Copy, Debug, PartialEq, Eq, Structural)]
pub struct LocalFileHeader {
    pub signature: Signature,
    pub version_needed_to_extract: u16,
    pub general_purpose_bit_flag: u16,
    pub compression_method: u16,
    pub last_mod_file_time: u16,
    pub last_mod_file_date: u16,
    pub crc32: u32,
    pub compressed_size: u32,
    pub uncompressed_size: u32,
    pub file_name_length: u16,
    pub extra_field_length: u16,
}

/// The two little-endian bytes of a `u16`.
pub open spec fn spec_u16_bytes(v: u16) -> Seq<u8> {
    seq![(v % 0x100) as u8, (v / 0x100) as u8]
}

/// The four little-endian bytes of a `u32`.
pub open spec fn spec_u32_bytes(v: u32) -> Seq<u8> {
    seq![
        (v % 0x100) as u8,
        ((v / 0x100) % 0x100) as u8,
        ((v / 0x10000) % 0x100) as u8,
        (v / 0x1000000) as u8,
    ]
}

impl LocalFileHeader {
    /// The header whose fields are decoded from the 30 bytes of `b` starting
    /// at offset `i`.
    pub open spec fn spec_parse(b: Seq<u8>, i: int) -> LocalFileHeader
        recommends
            0 <= i,
            i + 30 <= b.len(),
    {
        LocalFileHeader {
            signature: Signature::spec_classify(spec_u32_le(b, i)),
            version_needed_to_extract: spec_u16_le(b, i + 4),
            general_purpose_bit_flag: spec_u16_le(b, i + 6),
            compression_method: spec_u16_le(b, i + 8),
            last_mod_file_time: spec_u16_le(b, i + 10),
            last_mod_file_date: spec_u16_le(b, i + 12),
            crc32: spec_u32_le(b, i + 14),
            compressed_size: spec_u32_le(b, i + 18),
            uncompressed_size: spec_u32_le(b, i + 22),
            file_name_length: spec_u16_le(b, i + 26),
            extra_field_length: spec_u16_le(b, i + 28),
        }
    }

    /// The 30-byte little-endian encoding of this header.
    pub open spec fn spec_encode(self) -> Seq<u8> {
        spec_u32_bytes(self.signature.spec_word()) + spec_u16_bytes(self.version_needed_to_extract)
            + spec_u16_bytes(self.general_purpose_bit_flag) + spec_u16_bytes(
            self.compression_method,
        ) + spec_u16_bytes(self.last_mod_file_time) + spec_u16_bytes(self.last_mod_file_date)
            + spec_u32_bytes(self.crc32) + spec_u32_bytes(self.compressed_size) + spec_u32_bytes(
            self.uncompressed_size,
        ) + spec_u16_bytes(self.file_name_length) + spec_u16_bytes(self.extra_field_length)
    }

    /// Decodes a local file header from the start of `bytes`. Fails with
    /// `LocalFileHeaderParseError` when fewer than 30 bytes are supplied, and
    /// with `InvalidSignature` when the first four bytes are not the
    /// local-file-header magic.
    pub fn parse(bytes: &[u8]) -> (r: Result<LocalFileHeader, Error>)
        ensures
            match r {
                Ok(h) => bytes@.len() >= 30 && spec_u32_le(bytes@, 0) == LOCAL_FILE_HEADER_MAGIC
                    && h == LocalFileHeader::spec_parse(bytes@, 0),
                Err(e) => match e {
                    Error::LocalFileHeaderParseError => bytes@.len() < 30,
                    Error::InvalidSignature => bytes@.len() >= 30 && spec_u32_le(bytes@, 0)
                        != LOCAL_FILE_HEADER_MAGIC,
                    _ => false,
                },
            },
    {
        if bytes.len() < LOCAL_FILE_HEADER_SIZE {
            return Err(Error::LocalFileHeaderParseError);
        }
        let signature_word = u32_from_le_bytes(bytes[0], bytes[1], bytes[2], bytes[3]);
        if signature_word != LOCAL_FILE_HEADER_MAGIC {
            return Err(Error::InvalidSignature);
        }
        Ok(
            LocalFileHeader {
                signature: Signature::classify(signature_word),
                version_needed_to_extract: u16_from_le_bytes(bytes[4], bytes[5]),
                general_purpose_bit_flag: u16_from_le_bytes(bytes[6], bytes[7]),
                compression_method: u16_from_le_bytes(bytes[8], bytes[9]),
                last_mod_file_time: u16_from_le_bytes(bytes[10], bytes[11]),
                last_mod_file_date: u16_from_le_bytes(bytes[12], bytes[13]),
                crc32: u32_from_le_bytes(bytes[14], bytes[15], bytes[16], bytes[17]),
                compressed_size: u32_from_le_bytes(bytes[18], bytes[19], bytes[20], bytes[21]),
                uncompressed_size: u32_from_le_bytes(bytes[22], bytes[23], bytes[24], bytes[25]),
                file_name_length: u16_from_le_bytes(bytes[26], bytes[27]),
                extra_field_length: u16_from_le_bytes(bytes[28], bytes[29]),
            },
        )
    }
}

/// Splitting a little-endian `u16` into bytes and reassembling it gives the
/// value back.
pub proof fn lemma_u16_bytes_roundtrip(v: u16)
    ensures
        spec_u16_le(spec_u16_bytes(v), 0) == v,
{
    assert(spec_u16_le(spec_u16_bytes(v), 0) == v) by (nonlinear_arith);
}

/// Splitting a little-endian `u32` into bytes and reassembling it gives the
/// value back.
pub proof fn lemma_u32_bytes_roundtrip(v: u32)
    ensures
        spec_u32_le(spec_u32_bytes(v), 0) == v,
{
    assert(spec_u32_le(spec_u32_bytes(v), 0) == v) by (nonlinear_arith);
}

/// Decoding a header depends only on the 30 bytes of its record: parsing at
/// offset `i` equals parsing the extracted slice at offset 0.
pub proof fn lemma_parse_slice(b: Seq<u8>, i: int)
    requires
        0 <= i,
        i + 30 <= b.len(),
    ensures
        LocalFileHeader::spec_parse(b.subrange(i, i + 30), 0) == LocalFileHeader::spec_parse(b, i),
        spec_u32_le(b.subrange(i, i + 30), 0) == spec_u32_le(b, i),
{
    let s = b.subrange(i, i + 30);
    assert forall|j: int| 0 <= j < 30 implies s[j] == b[i + j] by {}
}

/// Parsing an encoded header gives the header back.
pub proof fn lemma_encode_parse_roundtrip(h: LocalFileHeader)
    ensures
        h.spec_encode().len() == 30,
        LocalFileHeader::spec_parse(h.spec_encode(), 0) == h,
        spec_u32_le(h.spec_encode(), 0) == h.signature.spec_word(),
{
    let e = h.spec_encode();
    assert(e.len() == 30);
    lemma_u32_bytes_roundtrip(h.signature.spec_word());
    lemma_u16_bytes_roundtrip(h.version_needed_to_extract);
    lemma_u16_bytes_roundtrip(h.general_purpose_bit_flag);
    lemma_u16_bytes_roundtrip(h.compression_method);
    lemma_u16_bytes_roundtrip(h.last_mod_file_time);
    lemma_u16_bytes_roundtrip(h.last_mod_file_date);
    lemma_u32_bytes_roundtrip(h.crc32);
    lemma_u32_bytes_roundtrip(h.compressed_size);
    lemma_u32_bytes_roundtrip(h.uncompressed_size);
    lemma_u16_bytes_roundtrip(h.file_name_length);
    lemma_u16_bytes_roundtrip(h.extra_field_length);
    assert(spec_u32_le(e, 0) == h.signature.spec_word()) by {
        assert(e.subrange(0, 4) =~= spec_u32_bytes(h.signature.spec_word()));
        assert(spec_u32_le(e, 0) == spec_u32_le(e.subrange(0, 4), 0));
    }
    assert(LocalFileHeader::spec_parse(e, 0) == h) by {
        assert(e.subrange(0, 4) =~= spec_u32_bytes(h.signature.spec_word()));
        assert(e.subrange(4, 6) =~= spec_u16_bytes(h.version_needed_to_extract));
        assert(e.subrange(6, 8) =~= spec_u16_bytes(h.general_purpose_bit_flag));
        assert(e.subrange(8, 10) =~= spec_u16_bytes(h.compression_method));
        assert(e.subrange(10, 12) =~= spec_u16_bytes(h.last_mod_file_time));
        assert(e.subrange(12, 14) =~= spec_u16_bytes(h.last_mod_file_date));
        assert(e.subrange(14, 18) =~= spec_u32_bytes(h.crc32));
        assert(e.subrange(18, 22) =~= spec_u32_bytes(h.compressed_size));
        assert(e.subrange(22, 26) =~= spec_u32_bytes(h.uncompressed_size));
        assert(e.subrange(26, 28) =~= spec_u16_bytes(h.file_name_length));
        assert(e.subrange(28, 30) =~= spec_u16_bytes(h.extra_field_length));
    }
}

} // verus!
