//! Archive II volume files: a file header, then length-prefixed records,
//! each compressed on its own.

use vstd::prelude::*;
use vstd::slice::slice_subrange;
use bzip2::read::BzDecoder;
use std::io::Read;
use crate::bytes::{read_u32_be, remaining, spec_remaining, spec_u32_be};
use crate::digital_radar_data::copy_bytes;
use crate::message_header::MessageHeader;
use crate::messages::{decode_messages, frame_views, frames_agree, lemma_prepend_empty, lemma_prepend_nothing, prepend, spec_decode_messages, MessageView, MessageWithHeader};
use crate::reader::ByteReader;
use crate::result::Error;

verus! {

/// Width of the file header in bytes.
pub const FILE_HEADER_SIZE: usize = 24;

/// Width of the length that precedes each record.
pub const RECORD_LENGTH_SIZE: usize = 4;

/// The header that opens a volume file.
#[derive(Clone, Debug, PartialEq, Eq)]
pub struct FileHeader {
    /// Filename of the archive, nine bytes.
    pub filename: Vec<u8>,
    /// File extension, three bytes.
    pub ext: Vec<u8>,
    /// Modified Julian date of the file.
    pub file_date: u32,
    /// Milliseconds of day since midnight of the file.
    pub file_time: u32,
    /// Unused field, four bytes.
    pub unused1: Vec<u8>,
}

/// A file header with its byte fields as sequences.
pub struct FileHeaderView {
    pub filename: Seq<u8>,
    pub ext: Seq<u8>,
    pub file_date: u32,
    pub file_time: u32,
    pub unused1: Seq<u8>,
}

impl View for FileHeader {
    type V = FileHeaderView;

    open spec fn view(&self) -> FileHeaderView {
        FileHeaderView {
            filename: self.filename@,
            ext: self.ext@,
            file_date: self.file_date,
            file_time: self.file_time,
            unused1: self.unused1@,
        }
    }
}

/// A decoded Archive II file.
#[derive(Clone, Debug, PartialEq, Eq)]
pub struct Archive2File {
    /// The volume scan header.
    pub header: FileHeader,
    /// The decoded messages of all records, in file order.
    pub records: Vec<MessageWithHeader>,
}

impl View for Archive2File {
    type V = (FileHeaderView, Seq<(MessageHeader, MessageView)>);

    open spec fn view(&self) -> (FileHeaderView, Seq<(MessageHeader, MessageView)>) {
        (self.header@, frame_views(self.records@))
    }
}

/// The file header whose first byte is `s[pos]`.
pub open spec fn spec_file_header_at(s: Seq<u8>, pos: int) -> FileHeaderView {
    FileHeaderView {
        filename: s.subrange(pos, pos + 9),
        ext: s.subrange(pos + 9, pos + 12),
        file_date: spec_u32_be(s, pos + 12),
        file_time: spec_u32_be(s, pos + 16),
        unused1: s.subrange(pos + 20, pos + 24),
    }
}

/// What decoding a file header at `pos` gives: `TruncatedFileHeader` where
/// fewer than `FILE_HEADER_SIZE` bytes are left, else the header.
pub open spec fn spec_decode_file_header(s: Seq<u8>, pos: int) -> Result<FileHeaderView, Error> {
    if spec_remaining(s, pos) < FILE_HEADER_SIZE {
        Err(Error::TruncatedFileHeader)
    } else {
        Ok(spec_file_header_at(s, pos))
    }
}

/// Decodes the file header at the reader's position and moves the reader
/// behind it; on an error the reader stays.
pub fn decode_file_header(reader: &mut ByteReader) -> (r: Result<FileHeader, Error>)
    ensures
        match spec_decode_file_header(old(reader).data@, old(reader).position as int) {
            Err(e) => r == Err::<FileHeader, Error>(e) && final(reader).position == old(
                reader,
            ).position,
            Ok(v) => r matches Ok(h) && h@ == v && final(reader).position == old(reader).position
                + FILE_HEADER_SIZE,
        },
        final(reader).data == old(reader).data,
{
    let pos: usize = reader.position;
    let data = reader.data.as_slice();
    if remaining(data, pos) < FILE_HEADER_SIZE {
        return Err(Error::TruncatedFileHeader);
    }
    let header = FileHeader {
        filename: copy_bytes(data, pos, pos + 9),
        ext: copy_bytes(data, pos + 9, pos + 12),
        file_date: read_u32_be(data, pos + 12),
        file_time: read_u32_be(data, pos + 16),
        unused1: copy_bytes(data, pos + 20, pos + 24),
    };
    reader.position = pos + FILE_HEADER_SIZE;
    Ok(header)
}

/// The bytes that a bzip2 stream decompresses to, or `None` where the
/// payload is no well-formed stream.
pub uninterp spec fn bz_decoded(payload: Seq<u8>) -> Option<Seq<u8>>;

/// `bzip2::read::BzDecoder` read to its end over `payload`. The decoder
/// works on the payload alone, so what it gives is a function of those
/// bytes: the decompressed bytes, or nothing where the decoder reports an
/// error.
#[verifier::external_body]
fn bz_decompress(payload: &[u8]) -> (r: Option<Vec<u8>>)
    ensures
        match bz_decoded(payload@) {
            None => r is None,
            Some(bytes) => r matches Some(v) && v@ == bytes,
        },
{
    let mut out = Vec::new();
    match BzDecoder::new(payload).read_to_end(&mut out) {
        Ok(_) => Some(out),
        Err(_) => None,
    }
}

/// The length of the payload of the record at `pos`: `TruncatedRecordLength`
/// where fewer than four bytes are left, `TruncatedRecordBody` where the
/// declared length exceeds what follows the length itself.
pub open spec fn spec_record_length(s: Seq<u8>, pos: int) -> Result<int, Error> {
    if spec_remaining(s, pos) < RECORD_LENGTH_SIZE {
        Err(Error::TruncatedRecordLength)
    } else if spec_u32_be(s, pos) > spec_remaining(s, pos) - RECORD_LENGTH_SIZE {
        Err(Error::TruncatedRecordBody)
    } else {
        Ok(spec_u32_be(s, pos) as int)
    }
}

/// What the decoder's answer on a record's payload means for the record.
pub open spec fn spec_record_outcome(decoded: Option<Seq<u8>>) -> Result<Seq<u8>, Error> {
    match decoded {
        None => Err(Error::DecompressionError),
        Some(bytes) => Ok(bytes),
    }
}

/// What the record at `pos` decompresses to.
pub open spec fn spec_decompress_record(s: Seq<u8>, pos: int) -> Result<Seq<u8>, Error> {
    match spec_record_length(s, pos) {
        Err(e) => Err(e),
        Ok(len) => spec_record_outcome(
            bz_decoded(s.subrange(pos + RECORD_LENGTH_SIZE, pos + RECORD_LENGTH_SIZE + len)),
        ),
    }
}

/// The position behind the record at `pos`; `pos` itself where the record
/// is cut short.
pub open spec fn spec_record_end(s: Seq<u8>, pos: int) -> int {
    match spec_record_length(s, pos) {
        Err(_) => pos,
        Ok(len) => pos + RECORD_LENGTH_SIZE + len,
    }
}

/// Whether decompressed bytes are what the input says they are.
pub open spec fn bytes_agree(r: Result<Vec<u8>, Error>, expected: Result<Seq<u8>, Error>) -> bool {
    match expected {
        Err(e) => r == Err::<Vec<u8>, Error>(e),
        Ok(bytes) => r matches Ok(v) && v@ == bytes,
    }
}

/// Turns the decoder's answer on a record's payload into the record's
/// outcome: the bytes, or `DecompressionError`.
pub fn record_outcome(decoded: Option<Vec<u8>>) -> (r: Result<Vec<u8>, Error>)
    ensures
        match decoded {
            None => r == Err::<Vec<u8>, Error>(Error::DecompressionError),
            Some(v) => r == Ok::<Vec<u8>, Error>(v),
        },
{
    match decoded {
        None => Err(Error::DecompressionError),
        Some(v) => Ok(v),
    }
}

/// Reads one record at the reader's position: its four-byte big-endian
/// length, then exactly that many bytes, which are decompressed. The reader
/// moves behind the record where the record is there in full, and stays
/// where it is cut short.
pub fn decompress_ldm_record(reader: &mut ByteReader) -> (r: Result<Vec<u8>, Error>)
    ensures
        bytes_agree(r, spec_decompress_record(old(reader).data@, old(reader).position as int)),
        final(reader).data == old(reader).data,
        final(reader).position == spec_record_end(
            old(reader).data@,
            old(reader).position as int,
        ),
{
    let pos: usize = reader.position;
    let data = reader.data.as_slice();
    let left: usize = remaining(data, pos);
    if left < RECORD_LENGTH_SIZE {
        return Err(Error::TruncatedRecordLength);
    }
    let record_size: u32 = read_u32_be(data, pos);
    if record_size as usize > left - RECORD_LENGTH_SIZE {
        return Err(Error::TruncatedRecordBody);
    }
    let start: usize = pos + RECORD_LENGTH_SIZE;
    let end: usize = start + record_size as usize;
    let decoded = bz_decompress(slice_subrange(data, start, end));
    reader.position = end;
    record_outcome(decoded)
}

/// What the records from `pos` on decompress to, record after record until
/// the input is used up. The first record that fails gives its error.
pub open spec fn spec_decompress_records(s: Seq<u8>, pos: int) -> Result<Seq<Seq<u8>>, Error>
    decreases s.len() - pos,
{
    if spec_remaining(s, pos) == 0 {
        Ok(Seq::empty())
    } else {
        match spec_decompress_record(s, pos) {
            Err(e) => Err(e),
            Ok(bytes) => prepend(seq![bytes], spec_decompress_records(s, spec_record_end(s, pos))),
        }
    }
}

/// The contents of a run of byte blocks.
pub open spec fn block_views(v: Seq<Vec<u8>>) -> Seq<Seq<u8>> {
    v.map_values(|b: Vec<u8>| b@)
}

/// Whether decompressed blocks are what the input says they are.
pub open spec fn blocks_agree(
    r: Result<Vec<Vec<u8>>, Error>,
    expected: Result<Seq<Seq<u8>>, Error>,
) -> bool {
    match expected {
        Err(e) => r == Err::<Vec<Vec<u8>>, Error>(e),
        Ok(blocks) => r matches Ok(v) && block_views(v@) == blocks,
    }
}

/// Putting `done` and then `next` in front is putting their concatenation
/// in front.
pub proof fn lemma_prepend_twice<T>(done: Seq<T>, next: Seq<T>, rest: Result<Seq<T>, Error>)
    ensures
        prepend(done, prepend(next, rest)) == prepend(done + next, rest),
{
    match rest {
        Ok(more) => {
            assert(done + (next + more) =~= (done + next) + more);
        },
        Err(_) => {},
    }
}

/// Splits the input from the reader's position on into records and
/// decompresses each. The run ends cleanly where the input is used up at a
/// record boundary.
pub fn decompress_records(reader: &mut ByteReader) -> (r: Result<Vec<Vec<u8>>, Error>)
    ensures
        blocks_agree(r, spec_decompress_records(old(reader).data@, old(reader).position as int)),
        final(reader).data == old(reader).data,
{
    let ghost s = reader.data@;
    let ghost start = reader.position as int;
    let mut blocks: Vec<Vec<u8>> = Vec::new();
    proof {
        assert(block_views(blocks@) =~= Seq::empty());
        lemma_prepend_nothing(spec_decompress_records(s, start));
    }
    while reader.remaining() > 0
        invariant
            reader.data@ == s,
            reader.data == old(reader).data,
            start == old(reader).position as int,
            spec_decompress_records(s, start) == prepend(
                block_views(blocks@),
                spec_decompress_records(s, reader.position as int),
            ),
        decreases spec_remaining(s, reader.position as int),
    {
        let block = match decompress_ldm_record(reader) {
            Err(e) => { return Err(e); },
            Ok(block) => block,
        };
        proof {
            assert(block_views(blocks@.push(block)) =~= block_views(blocks@).push(block@));
            assert(block_views(blocks@).push(block@) =~= block_views(blocks@) + seq![block@]);
            lemma_prepend_twice(
                block_views(blocks@),
                seq![block@],
                spec_decompress_records(s, reader.position as int),
            );
        }
        blocks.push(block);
    }
    proof {
        lemma_prepend_empty(block_views(blocks@));
    }
    Ok(blocks)
}

/// What the records from `pos` on decode to: each record decompressed and
/// its frames decoded, all frames in file order. The first record that
/// fails, in decompression or in a frame, gives its error.
pub open spec fn spec_decode_records(s: Seq<u8>, pos: int) -> Result<
    Seq<(MessageHeader, MessageView)>,
    Error,
>
    decreases s.len() - pos,
{
    if spec_remaining(s, pos) == 0 {
        Ok(Seq::empty())
    } else {
        match spec_decompress_record(s, pos) {
            Err(e) => Err(e),
            Ok(bytes) => match spec_decode_messages(bytes, 0) {
                Err(e) => Err(e),
                Ok(frames) => prepend(frames, spec_decode_records(s, spec_record_end(s, pos))),
            },
        }
    }
}

/// What a volume file decodes to: its header, then the frames of all its
/// records.
pub open spec fn spec_decode_archive2_file(s: Seq<u8>, pos: int) -> Result<
    (FileHeaderView, Seq<(MessageHeader, MessageView)>),
    Error,
> {
    match spec_decode_file_header(s, pos) {
        Err(e) => Err(e),
        Ok(header) => match spec_decode_records(s, pos + FILE_HEADER_SIZE) {
            Err(e) => Err(e),
            Ok(frames) => Ok((header, frames)),
        },
    }
}

/// Decompresses the records from the reader's position on and decodes the
/// frames of each.
pub fn decompress_and_decode_records(reader: &mut ByteReader) -> (r: Result<
    Vec<MessageWithHeader>,
    Error,
>)
    ensures
        frames_agree(
            r,
            spec_decode_records(old(reader).data@, old(reader).position as int),
        ),
        final(reader).data == old(reader).data,
{
    let ghost s = reader.data@;
    let ghost start = reader.position as int;
    let mut records: Vec<MessageWithHeader> = Vec::new();
    proof {
        assert(frame_views(records@) =~= Seq::empty());
        lemma_prepend_nothing(spec_decode_records(s, start));
    }
    while reader.remaining() > 0
        invariant
            reader.data@ == s,
            reader.data == old(reader).data,
            start == old(reader).position as int,
            spec_decode_records(s, start) == prepend(
                frame_views(records@),
                spec_decode_records(s, reader.position as int),
            ),
        decreases spec_remaining(s, reader.position as int),
    {
        let block = match decompress_ldm_record(reader) {
            Err(e) => { return Err(e); },
            Ok(block) => block,
        };
        let mut block_reader = ByteReader::new(block);
        let mut frames = match decode_messages(&mut block_reader) {
            Err(e) => { return Err(e); },
            Ok(frames) => frames,
        };
        proof {
            assert(frame_views(records@ + frames@) =~= frame_views(records@) + frame_views(
                frames@,
            ));
            lemma_prepend_twice(
                frame_views(records@),
                frame_views(frames@),
                spec_decode_records(s, reader.position as int),
            );
        }
        records.append(&mut frames);
    }
    proof {
        lemma_prepend_empty(frame_views(records@));
    }
    Ok(records)
}

/// Whether a decoded file is what the bytes say it is.
pub open spec fn archive_agrees(
    r: Result<Archive2File, Error>,
    expected: Result<(FileHeaderView, Seq<(MessageHeader, MessageView)>), Error>,
) -> bool {
    match expected {
        Err(e) => r == Err::<Archive2File, Error>(e),
        Ok(v) => r matches Ok(file) && file@ == v,
    }
}

/// Decodes a volume file from the reader's position on: the file header,
/// then every record, decompressed and split into messages.
pub fn decompress_and_decode_archive2_file(reader: &mut ByteReader) -> (r: Result<
    Archive2File,
    Error,
>)
    ensures
        archive_agrees(
            r,
            spec_decode_archive2_file(old(reader).data@, old(reader).position as int),
        ),
        final(reader).data == old(reader).data,
{
    let header = match decode_file_header(reader) {
        Err(e) => { return Err(e); },
        Ok(header) => header,
    };
    let records = match decompress_and_decode_records(reader) {
        Err(e) => { return Err(e); },
        Ok(records) => records,
    };
    Ok(Archive2File { header, records })
}

} // verus!
