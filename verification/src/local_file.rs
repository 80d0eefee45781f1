//! A local ZIP entry bound to the stream cursor, and the linear first-match
//! scan that locates one entry by name.

use crate::byte_stream::ByteStream;
use crate::le_bytes::spec_u32_le;
use crate::local_file_header::{lemma_parse_slice, LocalFileHeader, LOCAL_FILE_HEADER_SIZE};
use crate::signature::LOCAL_FILE_HEADER_MAGIC;
use crate::Error;
use vstd::prelude::*;
use vstd::utf8::{decode_utf8, valid_utf8};

verus! {

/// What a byte sequence yields under raw DEFLATE decompression: `Some` of the
/// decompressed bytes when the sequence is exactly one complete well-formed
/// raw DEFLATE stream, `None` otherwise.
pub uninterp spec fn inflate(input: Seq<u8>) -> Option<Seq<u8>>;

/// What one decompression call reported back.
struct InflateOutcome {
    output: Vec<u8>,
    consumed: u64,
    produced: u64,
    ended: bool,
}

/// Relies on `flate2::Decompress::decompress` with `FlushDecompress::Finish`
/// over a raw (headerless) DEFLATE stream, and on its `total_in` and
/// `total_out` counters: the call reaches the stream end with all input
/// consumed exactly when `input` is one complete DEFLATE stream whose
/// decompressed form fits the buffer, and the bytes written are that form.
/// A single call handles at most `u32::MAX` bytes on either side (the zlib
/// backend clamps larger buffers), so both sizes are bounded here; the one
/// caller takes them from 32-bit header fields.
#[verifier::external_body]
fn inflate_once(input: &Vec<u8>, out_len: usize) -> (r: Option<InflateOutcome>)
    requires
        input@.len() <= u32::MAX,
        out_len <= u32::MAX,
    ensures
        match r {
            Some(o) => {
                &&& o.output@.len() == out_len
                &&& o.produced <= out_len
                &&& o.consumed <= input@.len()
                &&& (o.ended && o.consumed == input@.len() ==> inflate(input@) == Some(
                    o.output@.take(o.produced as int),
                ))
                &&& (inflate(input@) matches Some(p) ==> p.len() <= out_len ==> o.ended
                    && o.consumed == input@.len() && o.produced == p.len())
            },
            None => inflate(input@) is None,
        },
{
    let mut output = vec![0u8; out_len];
    let mut decompress = flate2::Decompress::new(false);
    match decompress.decompress(input, &mut output, flate2::FlushDecompress::Finish) {
        Ok(status) => Some(
            InflateOutcome {
                consumed: decompress.total_in(),
                produced: decompress.total_out(),
                ended: matches!(status, flate2::Status::StreamEnd),
                output,
            },
        ),
        Err(_) => None,
    }
}

/// Relies on `String::from_utf8`: it succeeds exactly on valid UTF-8 input
/// and returns the string those bytes encode.
#[verifier::external_body]
fn decode_file_name(bytes: Vec<u8>) -> (r: Option<String>)
    ensures
        match r {
            Some(s) => valid_utf8(bytes@) && s@ == decode_utf8(bytes@),
            None => !valid_utf8(bytes@),
        },
{
    String::from_utf8(bytes).ok()
}

/// The bytes that carry the file name of a record starting at `pos`.
pub open spec fn spec_name_bytes(data: Seq<u8>, pos: int, h: LocalFileHeader) -> Seq<u8>
    recommends
        0 <= pos,
        pos + 30 + h.file_name_length <= data.len(),
{
    data.subrange(pos + 30, pos + 30 + h.file_name_length as int)
}

/// The offset where the compressed payload of a record starting at `pos`
/// begins: just past the header, the file name, and the extra field.
pub open spec fn spec_payload_start(pos: int, h: LocalFileHeader) -> int {
    pos + 30 + h.file_name_length as int + h.extra_field_length as int
}

/// The offset just past the compressed payload of a record starting at
/// `pos`: where the next record is expected to begin.
pub open spec fn spec_record_end(pos: int, h: LocalFileHeader) -> int {
    spec_payload_start(pos, h) + h.compressed_size as int
}

/// The bytes a scan of `data` still has in front of it at offset `pos`.
pub open spec fn scan_fuel(data: Seq<u8>, pos: int) -> int {
    if pos <= data.len() {
        data.len() - pos
    } else {
        0
    }
}

/// The first-occurrence scan of `data` from offset `pos` for an entry whose
/// decoded name equals `target`: `Ok` of the record start offset of the first
/// match, or the error that terminates the scan. Mirrors, step for step, what
/// `find_local_file` does from that position.
pub open spec fn scan_from(data: Seq<u8>, pos: int, target: Seq<char>) -> Result<int, Error>
    recommends
        0 <= pos,
    decreases scan_fuel(data, pos),
{
    if data.len() - pos < 30 {
        Err(Error::EntryNotFound)
    } else if spec_u32_le(data, pos) != LOCAL_FILE_HEADER_MAGIC {
        Err(Error::EntryNotFound)
    } else {
        let h = LocalFileHeader::spec_parse(data, pos);
        if pos + 30 + h.file_name_length as int > data.len() {
            Err(Error::IoError)
        } else if !valid_utf8(spec_name_bytes(data, pos, h)) {
            Err(Error::NameDecodeError)
        } else if spec_payload_start(pos, h) > u64::MAX {
            Err(Error::IoError)
        } else if decode_utf8(spec_name_bytes(data, pos, h)) == target {
            Ok(pos)
        } else if spec_record_end(pos, h) > u64::MAX {
            Err(Error::IoError)
        } else {
            scan_from(data, spec_record_end(pos, h), target)
        }
    }
}

/// A local entry: its header, its record start offset, its decoded file name,
/// and exclusive ownership of the stream cursor, positioned at the start of
/// the entry's compressed payload.
#[derive(Debug)]
pub struct LocalFile {
    reader: ByteStream,
    pos: u64,
    header: LocalFileHeader,
    file_name: String,
}

impl LocalFile {
    /// The record start offset this entry was read from.
    pub closed spec fn spec_pos(&self) -> u64 {
        self.pos
    }

    /// The header this entry was built from.
    pub closed spec fn spec_header(&self) -> LocalFileHeader {
        self.header
    }

    /// The decoded file name.
    pub closed spec fn name(&self) -> Seq<char> {
        self.file_name@
    }

    /// The bytes of the underlying stream.
    pub closed spec fn bytes(&self) -> Seq<u8> {
        self.reader.bytes()
    }

    /// The cursor of the underlying stream.
    pub closed spec fn cursor(&self) -> u64 {
        self.reader.cursor()
    }

    /// The offset where this entry's compressed payload begins.
    pub open spec fn payload_start(&self) -> int {
        spec_payload_start(self.spec_pos() as int, self.spec_header())
    }

    /// The offset just past this entry's compressed payload.
    pub open spec fn record_end(&self) -> int {
        spec_record_end(self.spec_pos() as int, self.spec_header())
    }

    /// The compressed payload region of the stream.
    pub open spec fn payload_bytes(&self) -> Seq<u8>
        recommends
            self.record_end() <= self.bytes().len(),
    {
        self.bytes().subrange(self.payload_start(), self.record_end())
    }

    /// The cursor sits exactly at the payload start: what construction
    /// establishes and `skip` and the extractions rely on.
    pub open spec fn wf(&self) -> bool {
        self.cursor() as int == self.payload_start()
    }

    /// Binds a header to its file name and the stream cursor. Expects the
    /// stream positioned immediately after a header that begins at `pos`;
    /// reads the file name, decodes it as UTF-8, and seeks past the extra
    /// field, leaving the cursor at the payload start.
    pub fn new(reader: ByteStream, pos: u64, header: LocalFileHeader) -> (r: Result<
        LocalFile,
        Error,
    >)
        requires
            reader.cursor() as int == pos as int + 30,
        ensures
            match r {
                Ok(lf) => {
                    &&& pos + 30 + header.file_name_length <= reader.bytes().len()
                    &&& valid_utf8(spec_name_bytes(reader.bytes(), pos as int, header))
                    &&& spec_payload_start(pos as int, header) <= u64::MAX
                    &&& lf.name() == decode_utf8(
                        spec_name_bytes(reader.bytes(), pos as int, header),
                    )
                    &&& lf.wf()
                    &&& lf.spec_pos() == pos
                    &&& lf.spec_header() == header
                    &&& lf.bytes() == reader.bytes()
                },
                Err(e) => match e {
                    Error::IoError => pos + 30 + header.file_name_length > reader.bytes().len() || (
                    valid_utf8(spec_name_bytes(reader.bytes(), pos as int, header))
                        && spec_payload_start(pos as int, header) > u64::MAX),
                    Error::NameDecodeError => pos + 30 + header.file_name_length
                        <= reader.bytes().len() && !valid_utf8(
                        spec_name_bytes(reader.bytes(), pos as int, header),
                    ),
                    _ => false,
                },
            },
    {
        let mut stream = reader;
        let name_buf = match stream.read_exact(header.file_name_length as u64) {
            Ok(b) => b,
            Err(e) => {
                return Err(e);
            },
        };
        let file_name = match decode_file_name(name_buf) {
            Some(s) => s,
            None => {
                return Err(Error::NameDecodeError);
            },
        };
        match stream.advance(header.extra_field_length as u64) {
            Ok(_) => {},
            Err(e) => {
                return Err(e);
            },
        }
        Ok(LocalFile { reader: stream, pos, header, file_name })
    }

    /// A copy of the decoded file name.
    pub fn file_name(&self) -> (r: String)
        ensures
            r@ == self.name(),
    {
        self.file_name.clone()
    }

    /// Advances the stream past this entry's compressed payload and hands the
    /// cursor back, together with the absolute offset where the next record
    /// is expected to begin. Consumes the entry.
    pub fn skip(self) -> (r: Result<(u64, ByteStream), Error>)
        requires
            self.wf(),
        ensures
            match r {
                Ok((p, stream)) => {
                    &&& self.record_end() <= u64::MAX
                    &&& p as int == self.record_end()
                    &&& stream.bytes() == self.bytes()
                    &&& stream.cursor() == p
                },
                Err(e) => e == Error::IoError && self.record_end() > u64::MAX,
            },
    {
        let LocalFile { reader, header, .. } = self;
        let mut stream = reader;
        match stream.advance(header.compressed_size as u64) {
            Ok(p) => Ok((p, stream)),
            Err(e) => Err(e),
        }
    }

    /// Reads the complete raw on-disk record verbatim: header, file name,
    /// extra field and compressed payload. Intended for diagnostic capture.
    /// Consumes the entry.
    pub fn extract_compressed(self) -> (r: Result<(ByteStream, Vec<u8>), Error>)
        requires
            self.wf(),
        ensures
            match r {
                Ok((stream, out)) => {
                    &&& self.record_end() <= self.bytes().len()
                    &&& out@ == self.bytes().subrange(self.spec_pos() as int, self.record_end())
                    &&& stream.bytes() == self.bytes()
                    &&& stream.cursor() as int == self.record_end()
                },
                Err(e) => e == Error::IoError && self.record_end() > self.bytes().len(),
            },
    {
        let LocalFile { reader, pos, header, .. } = self;
        let mut stream = reader;
        stream.seek_start(pos);
        let record_len = (LOCAL_FILE_HEADER_SIZE as u64) + header.compressed_size as u64
            + header.file_name_length as u64 + header.extra_field_length as u64;
        match stream.read_exact(record_len) {
            Ok(v) => Ok((stream, v)),
            Err(e) => Err(e),
        }
    }

    /// Reads this entry's compressed payload and decompresses it as one raw
    /// DEFLATE stream into a buffer of exactly the declared uncompressed
    /// size. Fails with `DecompressError` when the payload is malformed or
    /// does not decompress to exactly that size. Returns the stream, now
    /// positioned just past the payload, and the decompressed bytes.
    /// Consumes the entry.
    pub fn extract_uncompressed(self) -> (r: Result<(ByteStream, Vec<u8>), Error>)
        requires
            self.wf(),
        ensures
            match r {
                Ok((stream, out)) => {
                    &&& self.record_end() <= self.bytes().len()
                    &&& inflate(self.payload_bytes()) == Some(out@)
                    &&& out@.len() == self.spec_header().uncompressed_size
                    &&& stream.bytes() == self.bytes()
                    &&& stream.cursor() as int == self.record_end()
                },
                Err(e) => match e {
                    Error::IoError => self.record_end() > self.bytes().len(),
                    Error::DecompressError => self.record_end() <= self.bytes().len() && !(inflate(
                        self.payload_bytes(),
                    ) matches Some(p) && p.len() == self.spec_header().uncompressed_size),
                    _ => false,
                },
            },
    {
        let LocalFile { reader, pos, header, .. } = self;
        let mut stream = reader;
        let payload_start = pos + (LOCAL_FILE_HEADER_SIZE as u64) + header.file_name_length as u64
            + header.extra_field_length as u64;
        stream.seek_start(payload_start);
        let input = match stream.read_exact(header.compressed_size as u64) {
            Ok(v) => v,
            Err(e) => {
                return Err(e);
            },
        };
        let out_len = header.uncompressed_size as usize;
        let outcome = match inflate_once(&input, out_len) {
            Some(o) => o,
            None => {
                return Err(Error::DecompressError);
            },
        };
        if outcome.ended && outcome.consumed == input.len() as u64 && outcome.produced
            == header.uncompressed_size as u64 {
            Ok((stream, outcome.output))
        } else {
            Err(Error::DecompressError)
        }
    }
}

/// Scans the stream from offset 0 for the first local file record whose
/// decoded name equals `file_name`, skipping non-matching records by their
/// declared sizes. Returns that entry positioned at its payload start, or the
/// error `scan_from` assigns to the stream.
#[verifier::rlimit(60)]
pub fn find_local_file(reader: ByteStream, file_name: &str) -> (r: Result<LocalFile, Error>)
    ensures
        match r {
            Ok(lf) => {
                &&& scan_from(reader.bytes(), 0, file_name@) == Ok::<int, Error>(
                    lf.spec_pos() as int,
                )
                &&& lf.wf()
                &&& lf.bytes() == reader.bytes()
                &&& lf.spec_header() == LocalFileHeader::spec_parse(
                    reader.bytes(),
                    lf.spec_pos() as int,
                )
                &&& lf.name() == file_name@
            },
            Err(e) => scan_from(reader.bytes(), 0, file_name@) == Err::<int, Error>(e),
        },
{
    let ghost data = reader.bytes();
    let mut stream = reader;
    let file_len = stream.len();
    stream.seek_start(0);
    let target: String = file_name.to_owned();
    let mut pos: u64 = 0;
    loop
        invariant
            data == reader.bytes(),
            stream.bytes() == data,
            stream.cursor() == pos,
            file_len == data.len(),
            target@ == file_name@,
            scan_from(data, 0, file_name@) == scan_from(data, pos as int, file_name@),
        decreases scan_fuel(data, pos as int),
    {
        if file_len < (LOCAL_FILE_HEADER_SIZE as u64) || pos > file_len - (
        LOCAL_FILE_HEADER_SIZE as u64) {
            proof {
                assert(scan_from(data, pos as int, file_name@) == Err::<int, Error>(
                    Error::EntryNotFound,
                ));
            }
            return Err(Error::EntryNotFound);
        }
        let header_buf = stream.read_exact(LOCAL_FILE_HEADER_SIZE as u64).unwrap();
        proof {
            lemma_parse_slice(data, pos as int);
        }
        let header = match LocalFileHeader::parse(header_buf.as_slice()) {
            Ok(h) => h,
            Err(_) => {
                proof {
                    assert(spec_u32_le(data, pos as int) != LOCAL_FILE_HEADER_MAGIC);
                    assert(scan_from(data, pos as int, file_name@) == Err::<int, Error>(
                        Error::EntryNotFound,
                    ));
                }
                return Err(Error::EntryNotFound);
            },
        };
        proof {
            assert(header == LocalFileHeader::spec_parse(data, pos as int));
            assert(spec_u32_le(data, pos as int) == LOCAL_FILE_HEADER_MAGIC);
        }
        let local_file = match LocalFile::new(stream, pos, header) {
            Ok(lf) => lf,
            Err(e) => {
                proof {
                    assert(scan_from(data, pos as int, file_name@) == Err::<int, Error>(e));
                }
                return Err(e);
            },
        };
        if local_file.file_name() == target {
            proof {
                assert(scan_from(data, pos as int, file_name@) == Ok::<int, Error>(pos as int));
            }
            return Ok(local_file);
        }
        proof {
            assert(decode_utf8(spec_name_bytes(data, pos as int, header)) != file_name@);
        }
        match local_file.skip() {
            Ok((new_pos, s)) => {
                proof {
                    assert(scan_from(data, pos as int, file_name@) == scan_from(
                        data,
                        new_pos as int,
                        file_name@,
                    ));
                }
                pos = new_pos;
                stream = s;
            },
            Err(e) => {
                proof {
                    assert(scan_from(data, pos as int, file_name@) == Err::<int, Error>(e));
                }
                return Err(e);
            },
        }
    }
}

} // verus!
