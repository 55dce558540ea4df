//! The errors that decoding can report.

use vstd::prelude::*;

verus! {

/// Why a decode call stopped.
#[derive(Clone, Copy, Debug, PartialEq, Eq, Structural)]
pub enum Error {
    /// Fewer than four bytes were left where a record length was expected.
    TruncatedRecordLength,
    /// A record declared more bytes than the stream still holds.
    TruncatedRecordBody,
    /// The compressed payload of a record was malformed.
    DecompressionError,
    /// Fewer bytes than the file header were left.
    TruncatedFileHeader,
    /// Fewer bytes than one message header were left at a frame boundary.
    TruncatedHeader,
    /// A fixed-width read inside a message body ran out of bytes.
    TruncatedMessage,
    /// A radar-data message declared a length that its frame cannot have.
    InvalidFrameLength,
    /// A radar-data message lacks its volume, elevation or radial block.
    MissingRequiredBlock,
    /// A moment block declared more gates than its frame holds.
    InvalidGateCount,
    /// Bit flags of a status message contradict each other.
    InconsistentFlagState,
    /// A clutter filter map holds fewer segments than it declared.
    SegmentCountMismatch,
    /// Radial statuses do not nest into sweeps and scans.
    MalformedRadialSequence,
}

} // verus!
