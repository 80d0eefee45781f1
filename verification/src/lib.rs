//! Locates and extracts a single named entry from a ZIP-format container by
//! scanning raw local-file-header records from an in-memory byte stream and
//! decompressing the matching entry's payload with raw DEFLATE.

use vstd::prelude::*;

mod byte_stream;
mod laws;
mod le_bytes;
mod local_file;
mod local_file_header;
mod signature;

pub use byte_stream::ByteStream;
pub use laws::{lemma_round_trip, lemma_scan_skips_mismatch, lemma_scan_stops_at_foreign_record, spec_record_bytes};
pub use le_bytes::{spec_u16_le, spec_u32_le, u16_from_le_bytes, u32_from_le_bytes};
pub use local_file::{find_local_file, inflate, scan_from, spec_name_bytes, spec_payload_start, spec_record_end, LocalFile};
pub use local_file_header::{LocalFileHeader, LOCAL_FILE_HEADER_SIZE};
pub use signature::Signature;
pub use signature::{CENTRAL_DIR_END_MAGIC, CENTRAL_FILE_HEADER_MAGIC, LOCAL_FILE_HEADER_MAGIC};

verus! {

/// The closed set of failure kinds this library reports.
#[derive(Clone, Copy, Debug, PartialEq, Eq, Structural)]
pub enum Error {
    /// A 4-byte magic did not match any known record type, or fewer than
    /// 4 bytes were available to classify.
    InvalidSignature,
    /// Fewer than 30 bytes were available where a full header was expected.
    LocalFileHeaderParseError,
    /// The file-name bytes of a record are not valid UTF-8.
    NameDecodeError,
    /// The scan reached the stream end, or a non-local-file-header record,
    /// without matching the target name.
    EntryNotFound,
    /// Raw DEFLATE decompression failed or did not yield exactly the declared
    /// uncompressed size.
    DecompressError,
    /// A read or seek went outside the underlying byte source.
    IoError,
}

} // verus!
