//! General guarantees of the scan, stated over the spec-level record model
//! and proved once and for all.

use crate::le_bytes::spec_u32_le;
use crate::local_file::{
    inflate, scan_from, spec_name_bytes, spec_payload_start, spec_record_end,
};
use crate::local_file_header::{
    lemma_encode_parse_roundtrip, lemma_parse_slice, LocalFileHeader,
};
use crate::signature::{Signature, LOCAL_FILE_HEADER_MAGIC};
use crate::Error;
use vstd::prelude::*;
use vstd::utf8::{decode_utf8, valid_utf8};

verus! {

/// A record that does not open with the local-file-header magic — a central
/// directory header, the end-of-central-directory marker, or corrupt data —
/// stops the scan at once with `EntryNotFound` rather than looping; so does a
/// tail too short to hold one more full header.
pub proof fn lemma_scan_stops_at_foreign_record(data: Seq<u8>, pos: int, target: Seq<char>)
    requires
        0 <= pos,
        data.len() - pos < 30 || spec_u32_le(data, pos) != LOCAL_FILE_HEADER_MAGIC,
    ensures
        scan_from(data, pos, target) == Err::<int, Error>(Error::EntryNotFound),
{
}

/// A well-formed record whose decoded name differs from the target — by as
/// little as letter case — is skipped whole: the scan visits it, then
/// continues exactly at its record end, where the next header is expected.
pub proof fn lemma_scan_skips_mismatch(data: Seq<u8>, pos: int, target: Seq<char>)
    requires
        0 <= pos,
        data.len() - pos >= 30,
        spec_u32_le(data, pos) == LOCAL_FILE_HEADER_MAGIC,
        pos + 30 + LocalFileHeader::spec_parse(data, pos).file_name_length <= data.len(),
        valid_utf8(spec_name_bytes(data, pos, LocalFileHeader::spec_parse(data, pos))),
        decode_utf8(spec_name_bytes(data, pos, LocalFileHeader::spec_parse(data, pos))) != target,
        spec_record_end(pos, LocalFileHeader::spec_parse(data, pos)) <= u64::MAX,
    ensures
        scan_from(data, pos, target) == scan_from(
            data,
            spec_record_end(pos, LocalFileHeader::spec_parse(data, pos)),
            target,
        ),
{
}

/// The bytes of one complete local record: the encoded header, then the file
/// name, the extra field, and the compressed payload.
pub open spec fn spec_record_bytes(
    h: LocalFileHeader,
    name: Seq<u8>,
    extra: Seq<u8>,
    payload: Seq<u8>,
) -> Seq<u8> {
    h.spec_encode() + name + extra + payload
}

/// Round trip: wrap any compressed payload in a local record whose header
/// declares the correct sizes and whose name decodes to the target, and the
/// scan finds that record at its start; the payload region it hands to
/// extraction holds exactly the compressed bytes, so extraction decompresses
/// them to whatever those bytes decompress to — for a payload produced by a
/// DEFLATE compressor, the original bytes.
pub proof fn lemma_round_trip(
    h: LocalFileHeader,
    name: Seq<u8>,
    extra: Seq<u8>,
    comp: Seq<u8>,
    target: Seq<char>,
)
    requires
        h.signature == Signature::LocalFileHeader,
        h.file_name_length == name.len(),
        h.extra_field_length == extra.len(),
        h.compressed_size == comp.len(),
        valid_utf8(name),
        decode_utf8(name) == target,
    ensures
        scan_from(spec_record_bytes(h, name, extra, comp), 0, target) == Ok::<int, Error>(0),
        spec_record_bytes(h, name, extra, comp).subrange(
            spec_payload_start(0, h),
            spec_record_end(0, h),
        ) == comp,
        inflate(
            spec_record_bytes(h, name, extra, comp).subrange(
                spec_payload_start(0, h),
                spec_record_end(0, h),
            ),
        ) == inflate(comp),
{
    let data = spec_record_bytes(h, name, extra, comp);
    lemma_encode_parse_roundtrip(h);
    assert(data.subrange(0, 30) =~= h.spec_encode());
    lemma_parse_slice(data, 0);
    assert(LocalFileHeader::spec_parse(data, 0) == h);
    assert(spec_u32_le(data, 0) == LOCAL_FILE_HEADER_MAGIC);
    assert(spec_name_bytes(data, 0, h) =~= name);
    assert(data.subrange(spec_payload_start(0, h), spec_record_end(0, h)) =~= comp);
    assert(scan_from(data, 0, target) == Ok::<int, Error>(0));
}

} // verus!
