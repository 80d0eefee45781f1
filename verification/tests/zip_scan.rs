use std::io::Write;

use zip_parser::{find_local_file, ByteStream, Error, LocalFile, LocalFileHeader, Signature};

const LOCAL_MAGIC: u32 = 0x04034b50;
const EOCD_MAGIC: u32 = 0x06054b50;

fn make_record_raw(name: &[u8], extra: &[u8], comp: &[u8], uncomp_len: u32, method: u16) -> Vec<u8> {
    let mut v = Vec::new();
    v.extend_from_slice(&LOCAL_MAGIC.to_le_bytes());
    v.extend_from_slice(&20u16.to_le_bytes());
    v.extend_from_slice(&0u16.to_le_bytes());
    v.extend_from_slice(&method.to_le_bytes());
    v.extend_from_slice(&0x683bu16.to_le_bytes());
    v.extend_from_slice(&0x5a91u16.to_le_bytes());
    v.extend_from_slice(&0u32.to_le_bytes());
    v.extend_from_slice(&(comp.len() as u32).to_le_bytes());
    v.extend_from_slice(&uncomp_len.to_le_bytes());
    v.extend_from_slice(&(name.len() as u16).to_le_bytes());
    v.extend_from_slice(&(extra.len() as u16).to_le_bytes());
    v.extend_from_slice(name);
    v.extend_from_slice(extra);
    v.extend_from_slice(comp);
    v
}

fn make_record(name: &str, extra: &[u8], comp: &[u8], uncomp_len: u32) -> Vec<u8> {
    make_record_raw(name.as_bytes(), extra, comp, uncomp_len, 8)
}

fn deflate(data: &[u8], level: u32) -> Vec<u8> {
    let mut enc = flate2::write::DeflateEncoder::new(Vec::new(), flate2::Compression::new(level));
    enc.write_all(data).unwrap();
    enc.finish().unwrap()
}

fn entry(name: &str, payload: &[u8], level: u32) -> Vec<u8> {
    let comp = deflate(payload, level);
    make_record(name, &[], &comp, payload.len() as u32)
}

#[test]
fn round_trip_single_entry_hello_world() {
    let payload = b"hello world";
    let comp = deflate(payload, 6);
    let archive = make_record("lua/init.lua", &[], &comp, payload.len() as u32);
    let stream = ByteStream::new(archive);
    let local_file = find_local_file(stream, "lua/init.lua").unwrap();
    assert_eq!(local_file.file_name(), "lua/init.lua");
    let (_stream, bytes) = local_file.extract_uncompressed().unwrap();
    assert_eq!(bytes, b"hello world");
    assert_eq!(bytes.len(), 11);
}

#[test]
fn round_trip_various_levels_and_payloads() {
    let payload: Vec<u8> = (0..5000u32).map(|i| (i % 251) as u8).collect();
    for level in [0u32, 1, 6, 9] {
        let archive = entry("data.bin", &payload, level);
        let found = find_local_file(ByteStream::new(archive), "data.bin").unwrap();
        let (_s, bytes) = found.extract_uncompressed().unwrap();
        assert_eq!(bytes, payload);
    }
}

#[test]
fn round_trip_with_extra_field_and_leading_entry() {
    let payload = b"return { main = function() end }";
    let comp = deflate(payload, 9);
    let mut archive = entry("a.txt", b"first entry", 1);
    archive.extend_from_slice(&make_record("lua/init.lua", &[7u8; 13], &comp, payload.len() as u32));
    let found = find_local_file(ByteStream::new(archive), "lua/init.lua").unwrap();
    assert_eq!(found.file_name(), "lua/init.lua");
    let (_s, bytes) = found.extract_uncompressed().unwrap();
    assert_eq!(bytes, payload);
}

#[test]
fn round_trip_empty_payload() {
    let archive = entry("empty.txt", b"", 6);
    let found = find_local_file(ByteStream::new(archive), "empty.txt").unwrap();
    let (_s, bytes) = found.extract_uncompressed().unwrap();
    assert_eq!(bytes.len(), 0);
}

#[test]
fn round_trip_one_byte_payload() {
    let archive = entry("one.txt", b"x", 9);
    let found = find_local_file(ByteStream::new(archive), "one.txt").unwrap();
    let (_s, bytes) = found.extract_uncompressed().unwrap();
    assert_eq!(bytes, b"x");
}

#[test]
fn not_found_visits_all_entries() {
    let mut archive = entry("a.txt", b"alpha", 6);
    archive.extend_from_slice(&entry("b.txt", b"beta", 6));
    let r = find_local_file(ByteStream::new(archive), "c.txt");
    assert_eq!(r.unwrap_err(), Error::EntryNotFound);
}

#[test]
fn empty_stream_is_not_found() {
    let r = find_local_file(ByteStream::new(Vec::new()), "a.txt");
    assert_eq!(r.unwrap_err(), Error::EntryNotFound);
}

#[test]
fn truncated_header_fails_parse() {
    assert_eq!(
        LocalFileHeader::parse(&[]).unwrap_err(),
        Error::LocalFileHeaderParseError
    );
    let short = [0u8; 29];
    assert_eq!(
        LocalFileHeader::parse(&short).unwrap_err(),
        Error::LocalFileHeaderParseError
    );
}

#[test]
fn header_with_wrong_magic_is_invalid_signature() {
    let mut bytes = entry("a.txt", b"x", 6);
    bytes[0] ^= 0xff;
    assert_eq!(
        LocalFileHeader::parse(&bytes).unwrap_err(),
        Error::InvalidSignature
    );
}

#[test]
fn central_dir_end_magic_stops_scan() {
    let mut data = EOCD_MAGIC.to_le_bytes().to_vec();
    data.extend_from_slice(&[0u8; 40]);
    let r = find_local_file(ByteStream::new(data), "lua/init.lua");
    assert_eq!(r.unwrap_err(), Error::EntryNotFound);
}

#[test]
fn scan_stops_at_central_dir_after_entries() {
    let mut archive = entry("a.txt", b"alpha", 6);
    archive.extend_from_slice(&EOCD_MAGIC.to_le_bytes());
    archive.extend_from_slice(&[0u8; 30]);
    let r = find_local_file(ByteStream::new(archive), "missing.txt");
    assert_eq!(r.unwrap_err(), Error::EntryNotFound);
}

#[test]
fn name_match_is_exact_and_case_sensitive() {
    let archive = entry("Lua/Init.lua", b"print('hi')", 6);
    let r = find_local_file(ByteStream::new(archive.clone()), "lua/init.lua");
    assert_eq!(r.unwrap_err(), Error::EntryNotFound);
    let found = find_local_file(ByteStream::new(archive), "Lua/Init.lua").unwrap();
    assert_eq!(found.file_name(), "Lua/Init.lua");
}

#[test]
fn skip_returns_exact_record_end() {
    let comp = [1u8, 2, 3, 4, 5, 6, 7];
    let archive = make_record("abc.txt", &[9u8; 5], &comp, 99);
    let mut stream = ByteStream::new(archive);
    let header_buf = stream.read_exact(30).unwrap();
    let header = LocalFileHeader::parse(&header_buf).unwrap();
    assert_eq!(header.file_name_length, 7);
    assert_eq!(header.extra_field_length, 5);
    assert_eq!(header.compressed_size, 7);
    let local_file = LocalFile::new(stream, 0, header).unwrap();
    let (pos, stream) = local_file.skip().unwrap();
    assert_eq!(pos, 30 + 7 + 5 + 7);
    assert_eq!(stream.position(), pos);
}

#[test]
fn oversized_declared_size_is_decompress_error() {
    let comp = deflate(b"hello world", 6);
    let archive = make_record("a.txt", &[], &comp, 100);
    let found = find_local_file(ByteStream::new(archive), "a.txt").unwrap();
    let r = found.extract_uncompressed();
    assert_eq!(r.unwrap_err(), Error::DecompressError);
}

#[test]
fn undersized_declared_size_is_decompress_error() {
    let comp = deflate(b"hello world", 6);
    let archive = make_record("a.txt", &[], &comp, 5);
    let found = find_local_file(ByteStream::new(archive), "a.txt").unwrap();
    let r = found.extract_uncompressed();
    assert_eq!(r.unwrap_err(), Error::DecompressError);
}

#[test]
fn corrupt_payload_is_decompress_error() {
    let mut comp = deflate(b"hello world", 6);
    let last = comp.len() - 1;
    comp[last] ^= 0x55;
    comp[0] ^= 0x07;
    let archive = make_record("a.txt", &comp.clone(), &comp, 11);
    let found = find_local_file(ByteStream::new(archive), "a.txt").unwrap();
    let r = found.extract_uncompressed();
    assert_eq!(r.unwrap_err(), Error::DecompressError);
}

#[test]
fn stored_entries_are_not_special_cased() {
    let archive = make_record_raw(b"a.txt", &[], b"hello world", 11, 0);
    let found = find_local_file(ByteStream::new(archive), "a.txt").unwrap();
    let r = found.extract_uncompressed();
    assert_eq!(r.unwrap_err(), Error::DecompressError);
}

#[test]
fn invalid_utf8_name_is_name_decode_error() {
    let archive = make_record_raw(&[0xff, 0xfe, 0xfd], &[], b"xyz", 3, 8);
    let r = find_local_file(ByteStream::new(archive), "a.txt");
    assert_eq!(r.unwrap_err(), Error::NameDecodeError);
}

#[test]
fn truncated_name_region_is_io_error() {
    let mut archive = entry("long-name.txt", b"payload", 6);
    archive.truncate(34);
    let r = find_local_file(ByteStream::new(archive), "long-name.txt");
    assert_eq!(r.unwrap_err(), Error::IoError);
}

#[test]
fn lying_compressed_size_runs_off_the_end() {
    let comp = deflate(b"hello world", 6);
    let mut archive = make_record("a.txt", &[], &comp, 11);
    let csize_offset = 18;
    archive[csize_offset..csize_offset + 4].copy_from_slice(&10_000u32.to_le_bytes());
    let found = find_local_file(ByteStream::new(archive), "a.txt").unwrap();
    let r = found.extract_uncompressed();
    assert_eq!(r.unwrap_err(), Error::IoError);
}

#[test]
fn extract_compressed_returns_verbatim_record() {
    let comp = deflate(b"hello world", 6);
    let record = make_record("a.txt", &[3u8, 1, 4], &comp, 11);
    let mut archive = record.clone();
    archive.extend_from_slice(&entry("b.txt", b"tail", 6));
    let found = find_local_file(ByteStream::new(archive), "a.txt").unwrap();
    let (stream, raw) = found.extract_compressed().unwrap();
    assert_eq!(raw, record);
    assert_eq!(stream.position(), record.len() as u64);
}

#[test]
fn extract_leaves_stream_at_payload_end() {
    let payload = b"hello world";
    let comp = deflate(payload, 6);
    let record = make_record("a.txt", &[], &comp, payload.len() as u32);
    let record_len = record.len() as u64;
    let found = find_local_file(ByteStream::new(record), "a.txt").unwrap();
    let (stream, _bytes) = found.extract_uncompressed().unwrap();
    assert_eq!(stream.position(), record_len);
}

#[test]
fn header_fields_decode_little_endian() {
    let mut bytes = LOCAL_MAGIC.to_le_bytes().to_vec();
    bytes.extend_from_slice(&0x0102u16.to_le_bytes());
    bytes.extend_from_slice(&0x0304u16.to_le_bytes());
    bytes.extend_from_slice(&0x0008u16.to_le_bytes());
    bytes.extend_from_slice(&0x1122u16.to_le_bytes());
    bytes.extend_from_slice(&0x3344u16.to_le_bytes());
    bytes.extend_from_slice(&0xdeadbeefu32.to_le_bytes());
    bytes.extend_from_slice(&0x00c0ffeeu32.to_le_bytes());
    bytes.extend_from_slice(&0x00abcdefu32.to_le_bytes());
    bytes.extend_from_slice(&0x0005u16.to_le_bytes());
    bytes.extend_from_slice(&0x0006u16.to_le_bytes());
    let h = LocalFileHeader::parse(&bytes).unwrap();
    assert_eq!(h.signature, Signature::LocalFileHeader);
    assert_eq!(h.version_needed_to_extract, 0x0102);
    assert_eq!(h.general_purpose_bit_flag, 0x0304);
    assert_eq!(h.compression_method, 8);
    assert_eq!(h.last_mod_file_time, 0x1122);
    assert_eq!(h.last_mod_file_date, 0x3344);
    assert_eq!(h.crc32, 0xdeadbeef);
    assert_eq!(h.compressed_size, 0x00c0ffee);
    assert_eq!(h.uncompressed_size, 0x00abcdef);
    assert_eq!(h.file_name_length, 5);
    assert_eq!(h.extra_field_length, 6);
}

#[test]
fn signature_classification() {
    assert_eq!(Signature::classify(0x04034b50), Signature::LocalFileHeader);
    assert_eq!(Signature::classify(0x02014b50), Signature::CentralFileHeader);
    assert_eq!(Signature::classify(0x06054b50), Signature::CentralDirEnd);
    assert_eq!(Signature::classify(0), Signature::Unknown);
    assert_eq!(Signature::classify(0xdeadbeef), Signature::Unknown);
    assert_eq!(Signature::classify_bytes(0x50, 0x4b, 0x03, 0x04), Signature::LocalFileHeader);
    assert_eq!(Signature::default(), Signature::Unknown);
}

#[test]
fn signature_parse_needs_four_bytes() {
    assert_eq!(Signature::parse(&[0x50, 0x4b, 0x03]).unwrap_err(), Error::InvalidSignature);
    assert_eq!(Signature::parse(&0x06054b50u32.to_le_bytes()).unwrap(), Signature::CentralDirEnd);
    assert_eq!(Signature::parse(&[1, 2, 3, 4, 5]).unwrap(), Signature::Unknown);
}
