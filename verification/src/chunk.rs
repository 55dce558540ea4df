//! Chunk files as they come from storage: what identifies one, and its
//! bytes before decoding.

use vstd::prelude::*;
use crate::decompress::FileHeader;

verus! {

/// A calendar date, as year, month and day.
#[derive(Clone, Copy, Debug, PartialEq, Eq, Hash, Structural)]
pub struct ChunkDate {
    pub year: i32,
    pub month: u32,
    pub day: u32,
}

/// Metadata to identify a particular radar chunk file: a radar site, a
/// date, and an identifier.
#[derive(Clone, Debug, PartialEq, Eq, Hash)]
pub struct ChunkMeta {
    site: String,
    date: ChunkDate,
    identifier: String,
}

impl View for ChunkMeta {
    type V = (Seq<char>, ChunkDate, Seq<char>);

    closed spec fn view(&self) -> (Seq<char>, ChunkDate, Seq<char>) {
        (self.site@, self.date, self.identifier@)
    }
}

impl ChunkMeta {
    /// The metadata of the chunk `identifier` that `site` produced on
    /// `date`.
    pub fn new(site: String, date: ChunkDate, identifier: String) -> (r: Self)
        ensures
            r@ == (site@, date, identifier@),
    {
        Self { site, date, identifier }
    }

    /// The radar site this chunk was produced at, e.g. KDMX.
    pub fn site(&self) -> (r: &String)
        ensures
            r@ == self@.0,
    {
        &self.site
    }

    /// The date this chunk's data was collected on.
    pub fn date(&self) -> (r: &ChunkDate)
        ensures
            *r == self@.1,
    {
        &self.date
    }

    /// The unique identifier for this chunk.
    pub fn identifier(&self) -> (r: &String)
        ensures
            r@ == self@.2,
    {
        &self.identifier
    }
}

/// Whether `data` carries the two-byte signature of a compressed chunk,
/// the letters "BZ" at offset 28.
pub open spec fn spec_compressed(data: Seq<u8>) -> bool {
    data.len() >= 30 && data[28] == 66 && data[29] == 90
}

/// An encoded, and possibly compressed, chunk file.
#[derive(Clone, Debug, PartialEq, Eq)]
pub struct EncodedChunk {
    meta: ChunkMeta,
    data: Vec<u8>,
}

impl View for EncodedChunk {
    type V = ((Seq<char>, ChunkDate, Seq<char>), Seq<u8>);

    closed spec fn view(&self) -> ((Seq<char>, ChunkDate, Seq<char>), Seq<u8>) {
        (self.meta@, self.data@)
    }
}

impl EncodedChunk {
    /// A chunk of the given bytes.
    pub fn new(meta: ChunkMeta, data: Vec<u8>) -> (r: Self)
        ensures
            r@ == (meta@, data@),
    {
        Self { meta, data }
    }

    /// The identifying metadata for this chunk.
    pub fn meta(&self) -> (r: &ChunkMeta)
        ensures
            r@ == self@.0,
    {
        &self.meta
    }

    /// The raw, encoded, and possibly compressed data for this chunk.
    pub fn data(&self) -> (r: &Vec<u8>)
        ensures
            r@ == self@.1,
    {
        &self.data
    }

    /// Whether this chunk is compressed, and so has to be decompressed
    /// before it is decoded.
    pub fn compressed(&self) -> (r: bool)
        ensures
            r == spec_compressed(self@.1),
    {
        self.data.len() >= 30 && self.data[28] == 66 && self.data[29] == 90
    }
}

/// A decoded chunk file.
#[derive(Clone, Debug, PartialEq, Eq)]
pub struct Chunk {
    meta: ChunkMeta,
    file_header: FileHeader,
}

impl Chunk {
    /// A chunk with the given file header.
    pub fn new(meta: ChunkMeta, file_header: FileHeader) -> (r: Self)
        ensures
            r.spec_meta()@ == meta@,
            r.spec_file_header()@ == file_header@,
    {
        Self { meta, file_header }
    }

    /// The identifying metadata for this chunk.
    pub closed spec fn spec_meta(&self) -> ChunkMeta {
        self.meta
    }

    /// The file header of this chunk.
    pub closed spec fn spec_file_header(&self) -> FileHeader {
        self.file_header
    }

    /// The identifying metadata for this chunk.
    pub fn meta(&self) -> (r: &ChunkMeta)
        ensures
            *r == self.spec_meta(),
    {
        &self.meta
    }

    /// The file header of this chunk.
    pub fn file_header(&self) -> (r: &FileHeader)
        ensures
            *r == self.spec_file_header(),
    {
        &self.file_header
    }
}

} // verus!
