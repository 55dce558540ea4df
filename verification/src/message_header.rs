//! The header that opens every message frame.

use vstd::prelude::*;
use crate::bytes::{read_u16_be, read_u32_be, remaining, spec_remaining, spec_u16_be, spec_u32_be};
use crate::result::Error;

verus! {

/// Width of a message header in bytes: twelve reserved bytes, then sixteen
/// bytes of fields.
pub const HEADER_SIZE: usize = 28;

/// Width of the slot that every message but digital radar data occupies.
pub const FRAME_SIZE: usize = 2432;

/// What kind of message a frame carries.
#[derive(Clone, Copy, Debug, PartialEq, Eq, Structural)]
pub enum MessageType {
    RDAStatusData,
    RDAClutterFilterMap,
    RDADigitalRadarDataGenericFormat,
    /// Any other type code, kept as read.
    Other(u8),
}

/// The message type that a type code stands for.
pub open spec fn spec_message_type(code: u8) -> MessageType {
    if code == 2 {
        MessageType::RDAStatusData
    } else if code == 15 {
        MessageType::RDAClutterFilterMap
    } else if code == 31 {
        MessageType::RDADigitalRadarDataGenericFormat
    } else {
        MessageType::Other(code)
    }
}

/// The fields of one message header, as they stand on the wire.
#[derive(Clone, Copy, Debug, PartialEq, Eq, Structural)]
pub struct MessageHeader {
    /// Size of the message in halfwords, header fields included.
    pub message_size: u16,
    /// Which of the redundant channels sent the message.
    pub rda_redundant_channel: u8,
    /// The type code.
    pub message_type: u8,
    /// Sequence number of the message.
    pub sequence_number: u16,
    /// Days since 1 January 1970, counted from one.
    pub date: u16,
    /// Milliseconds past midnight.
    pub time: u32,
    /// Number of segments the message was split into.
    pub segment_count: u16,
    /// Which of those segments this frame holds.
    pub segment_number: u16,
}

impl MessageHeader {
    /// The kind of message that follows this header.
    pub fn message_type(&self) -> (r: MessageType)
        ensures
            r == spec_message_type(self.message_type),
    {
        if self.message_type == 2 {
            MessageType::RDAStatusData
        } else if self.message_type == 15 {
            MessageType::RDAClutterFilterMap
        } else if self.message_type == 31 {
            MessageType::RDADigitalRadarDataGenericFormat
        } else {
            MessageType::Other(self.message_type)
        }
    }
}

/// The header whose first byte is `s[pos]`.
pub open spec fn spec_header_at(s: Seq<u8>, pos: int) -> MessageHeader {
    MessageHeader {
        message_size: spec_u16_be(s, pos + 12),
        rda_redundant_channel: s[pos + 14],
        message_type: s[pos + 15],
        sequence_number: spec_u16_be(s, pos + 16),
        date: spec_u16_be(s, pos + 18),
        time: spec_u32_be(s, pos + 20),
        segment_count: spec_u16_be(s, pos + 24),
        segment_number: spec_u16_be(s, pos + 26),
    }
}

/// What decoding a header at `pos` gives: the header, or `TruncatedHeader`
/// where fewer than `HEADER_SIZE` bytes are left.
pub open spec fn spec_decode_header(s: Seq<u8>, pos: int) -> Result<MessageHeader, Error> {
    if spec_remaining(s, pos) < HEADER_SIZE {
        Err(Error::TruncatedHeader)
    } else {
        Ok(spec_header_at(s, pos))
    }
}

/// Decodes the header that starts at `pos`, without moving anything.
pub fn header_at(data: &[u8], pos: usize) -> (r: Result<MessageHeader, Error>)
    ensures
        r == spec_decode_header(data@, pos as int),
        r is Ok ==> pos + HEADER_SIZE <= data@.len() <= usize::MAX,
{
    if remaining(data, pos) < HEADER_SIZE {
        return Err(Error::TruncatedHeader);
    }
    Ok(
        MessageHeader {
            message_size: read_u16_be(data, pos + 12),
            rda_redundant_channel: data[pos + 14],
            message_type: data[pos + 15],
            sequence_number: read_u16_be(data, pos + 16),
            date: read_u16_be(data, pos + 18),
            time: read_u32_be(data, pos + 20),
            segment_count: read_u16_be(data, pos + 24),
            segment_number: read_u16_be(data, pos + 26),
        },
    )
}

} // verus!
