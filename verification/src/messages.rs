//! Message frames: a header, then a body whose layout the header's type
//! code selects.

use vstd::prelude::*;
use vstd::slice::slice_subrange;
use crate::bytes::{read_u16_be, remaining, spec_remaining, spec_u16_be};
use crate::clutter_filter_map;
use crate::clutter_filter_map::{decode_clutter_filter_map, spec_decode_clutter_filter_map, RangeZone};
use crate::digital_radar_data;
use crate::digital_radar_data::{decode_digital_radar_data, spec_decode_digital_radar_data, DATA_HEADER_SIZE};
use crate::message_header::{header_at, spec_decode_header, spec_message_type, MessageHeader, MessageType, FRAME_SIZE, HEADER_SIZE};
use crate::rda_status_data;
use crate::rda_status_data::{decode_rda_status_message, spec_decode_rda_status};
use crate::reader::ByteReader;
use crate::result::Error;

verus! {

/// Width of the body of every message but digital radar data.
pub const FIXED_BODY_SIZE: usize = 2404;

/// A decoded message body.
#[derive(Clone, Debug, PartialEq, Eq)]
pub enum Message {
    RDAStatusData(rda_status_data::Message),
    ClutterFilterMap(clutter_filter_map::Message),
    DigitalRadarData(digital_radar_data::Message),
    /// A message of a type that is not decoded.
    Other,
}

/// A message body with its sample and segment lists as sequences.
pub enum MessageView {
    RDAStatusData(rda_status_data::Message),
    ClutterFilterMap((clutter_filter_map::Header, Seq<Seq<Seq<RangeZone>>>)),
    DigitalRadarData(digital_radar_data::MessageView),
    Other,
}

impl View for Message {
    type V = MessageView;

    open spec fn view(&self) -> MessageView {
        match *self {
            Message::RDAStatusData(m) => MessageView::RDAStatusData(m),
            Message::ClutterFilterMap(m) => MessageView::ClutterFilterMap(m@),
            Message::DigitalRadarData(m) => MessageView::DigitalRadarData(m@),
            Message::Other => MessageView::Other,
        }
    }
}

/// A message and the header that preceded it.
#[derive(Clone, Debug, PartialEq, Eq)]
pub struct MessageWithHeader {
    pub header: MessageHeader,
    pub message: Message,
}

impl View for MessageWithHeader {
    type V = (MessageHeader, MessageView);

    open spec fn view(&self) -> (MessageHeader, MessageView) {
        (self.header, self.message@)
    }
}

/// The views of a run of frames.
pub open spec fn frame_views(v: Seq<MessageWithHeader>) -> Seq<(MessageHeader, MessageView)> {
    v.map_values(|f: MessageWithHeader| f@)
}

/// The number of bytes that the body at `pos` occupies. A digital radar
/// data message declares its own length, in the radial-length field of its
/// header block; every other body fills the fixed slot. `TruncatedMessage`
/// where the input ends before the body does; `InvalidFrameLength` where a
/// declared length is shorter than the header block that holds it.
pub open spec fn spec_body_length(s: Seq<u8>, pos: int, message_type: MessageType) -> Result<
    int,
    Error,
> {
    if message_type == MessageType::RDADigitalRadarDataGenericFormat {
        if spec_remaining(s, pos) < DATA_HEADER_SIZE {
            Err(Error::TruncatedMessage)
        } else if spec_u16_be(s, pos + 18) < DATA_HEADER_SIZE {
            Err(Error::InvalidFrameLength)
        } else if spec_u16_be(s, pos + 18) > spec_remaining(s, pos) {
            Err(Error::TruncatedMessage)
        } else {
            Ok(spec_u16_be(s, pos + 18) as int)
        }
    } else if spec_remaining(s, pos) < FIXED_BODY_SIZE {
        Err(Error::TruncatedMessage)
    } else {
        Ok(FIXED_BODY_SIZE as int)
    }
}

/// What the bytes of one body decode to, by message type. A type that is
/// not decoded gives `Other`, never an error.
#[verifier::opaque]
pub open spec fn spec_decode_body(body: Seq<u8>, message_type: MessageType) -> Result<
    MessageView,
    Error,
> {
    match message_type {
        MessageType::RDAStatusData => match spec_decode_rda_status(body) {
            Err(e) => Err(e),
            Ok(m) => Ok(MessageView::RDAStatusData(m)),
        },
        MessageType::RDAClutterFilterMap => match spec_decode_clutter_filter_map(body) {
            Err(e) => Err(e),
            Ok(m) => Ok(MessageView::ClutterFilterMap(m)),
        },
        MessageType::RDADigitalRadarDataGenericFormat => match spec_decode_digital_radar_data(
            body,
        ) {
            Err(e) => Err(e),
            Ok(m) => Ok(MessageView::DigitalRadarData(m)),
        },
        MessageType::Other(_) => Ok(MessageView::Other),
    }
}

/// What the body at `pos` decodes to.
pub open spec fn spec_decode_message(s: Seq<u8>, pos: int, message_type: MessageType) -> Result<
    MessageView,
    Error,
> {
    match spec_body_length(s, pos, message_type) {
        Err(e) => Err(e),
        Ok(len) => spec_decode_body(s.subrange(pos, pos + len), message_type),
    }
}

/// The number of bytes that a frame at `pos` occupies, header and body;
/// zero where the header or the body is cut short.
pub open spec fn spec_frame_length(s: Seq<u8>, pos: int) -> int {
    match spec_decode_header(s, pos) {
        Err(_) => 0,
        Ok(header) => match spec_body_length(
            s,
            pos + HEADER_SIZE,
            spec_message_type(header.message_type),
        ) {
            Err(_) => 0,
            Ok(len) => HEADER_SIZE + len,
        },
    }
}

/// Whether a decoded body is what the bytes say it is.
pub open spec fn message_agrees(r: Result<Message, Error>, expected: Result<MessageView, Error>) -> bool {
    match expected {
        Err(e) => r == Err::<Message, Error>(e),
        Ok(v) => r matches Ok(m) && m@ == v,
    }
}

/// Decodes a message header at the reader's position and moves the reader
/// behind it. Where fewer bytes than a header are left the reader stays and
/// the error is `TruncatedHeader`: the sign that a block has no further
/// frame.
pub fn decode_message_header(reader: &mut ByteReader) -> (r: Result<MessageHeader, Error>)
    ensures
        r == spec_decode_header(old(reader).data@, old(reader).position as int),
        final(reader).data == old(reader).data,
        r is Ok ==> final(reader).position == old(reader).position + HEADER_SIZE,
        r is Err ==> final(reader).position == old(reader).position,
{
    let r = header_at(reader.data.as_slice(), reader.position);
    if r.is_ok() {
        reader.position = reader.position + HEADER_SIZE;
    }
    r
}

/// The number of bytes that the body at `pos` occupies.
pub fn body_length(data: &[u8], pos: usize, message_type: MessageType) -> (r: Result<usize, Error>)
    ensures
        match spec_body_length(data@, pos as int, message_type) {
            Err(e) => r == Err::<usize, Error>(e),
            Ok(len) => r == Ok::<usize, Error>(len as usize) && pos + len <= data@.len()
                && data@.len() <= usize::MAX,
        },
{
    let left: usize = remaining(data, pos);
    match message_type {
        MessageType::RDADigitalRadarDataGenericFormat => {
            if left < DATA_HEADER_SIZE {
                return Err(Error::TruncatedMessage);
            }
            let declared: usize = read_u16_be(data, pos + 18) as usize;
            if declared < DATA_HEADER_SIZE {
                Err(Error::InvalidFrameLength)
            } else if declared > left {
                Err(Error::TruncatedMessage)
            } else {
                Ok(declared)
            }
        },
        _ => {
            if left < FIXED_BODY_SIZE {
                Err(Error::TruncatedMessage)
            } else {
                Ok(FIXED_BODY_SIZE)
            }
        },
    }
}

/// Decodes one body from exactly its own bytes.
pub fn decode_body(body: &[u8], message_type: MessageType) -> (r: Result<Message, Error>)
    ensures
        message_agrees(r, spec_decode_body(body@, message_type)),
{
    reveal(spec_decode_body);
    match message_type {
        MessageType::RDAStatusData => match decode_rda_status_message(body) {
            Err(e) => Err(e),
            Ok(m) => Ok(Message::RDAStatusData(m)),
        },
        MessageType::RDAClutterFilterMap => match decode_clutter_filter_map(body) {
            Err(e) => Err(e),
            Ok(m) => Ok(Message::ClutterFilterMap(m)),
        },
        MessageType::RDADigitalRadarDataGenericFormat => match decode_digital_radar_data(body) {
            Err(e) => Err(e),
            Ok(m) => Ok(Message::DigitalRadarData(m)),
        },
        MessageType::Other(_) => Ok(Message::Other),
    }
}

/// Decodes the body of a message of the given type at the reader's
/// position. Where the whole body is there the reader moves behind it,
/// whether or not its content decodes; where it is cut short the reader
/// stays.
pub fn decode_message(reader: &mut ByteReader, message_type: MessageType) -> (r: Result<
    Message,
    Error,
>)
    ensures
        message_agrees(
            r,
            spec_decode_message(old(reader).data@, old(reader).position as int, message_type),
        ),
        final(reader).data == old(reader).data,
        final(reader).position == old(reader).position + (match spec_body_length(
            old(reader).data@,
            old(reader).position as int,
            message_type,
        ) {
            Err(_) => 0,
            Ok(len) => len,
        }),
{
    let pos: usize = reader.position;
    let len: usize = match body_length(reader.data.as_slice(), pos, message_type) {
        Err(e) => { return Err(e); },
        Ok(len) => len,
    };
    let r = decode_body(slice_subrange(reader.data.as_slice(), pos, pos + len), message_type);
    reader.position = pos + len;
    r
}

/// What the frame at `pos` decodes to: `TruncatedHeader` where no header
/// fits, else the header with what its body decodes to.
pub open spec fn spec_decode_frame(s: Seq<u8>, pos: int) -> Result<
    (MessageHeader, MessageView),
    Error,
> {
    match spec_decode_header(s, pos) {
        Err(e) => Err(e),
        Ok(header) => match spec_decode_message(
            s,
            pos + HEADER_SIZE,
            spec_message_type(header.message_type),
        ) {
            Err(e) => Err(e),
            Ok(message) => Ok((header, message)),
        },
    }
}

/// Decodes one frame at the reader's position: its header, then its body.
/// A frame that decodes is consumed to the byte: the reader has moved by
/// the frame's length, neither more nor less.
pub fn decode_frame(reader: &mut ByteReader) -> (r: Result<MessageWithHeader, Error>)
    ensures
        match spec_decode_frame(old(reader).data@, old(reader).position as int) {
            Err(e) => r == Err::<MessageWithHeader, Error>(e),
            Ok(v) => r matches Ok(frame) && frame@ == v,
        },
        final(reader).data == old(reader).data,
        r is Ok ==> final(reader).position == old(reader).position + spec_frame_length(
            old(reader).data@,
            old(reader).position as int,
        ) && spec_frame_length(old(reader).data@, old(reader).position as int) >= HEADER_SIZE
            && final(reader).position <= old(reader).data@.len(),
{
    let header = match decode_message_header(reader) {
        Err(e) => { return Err(e); },
        Ok(header) => header,
    };
    let message = match decode_message(reader, header.message_type()) {
        Err(e) => { return Err(e); },
        Ok(message) => message,
    };
    Ok(MessageWithHeader { header, message })
}

/// A result with `done` put in front of what it holds.
pub open spec fn prepend<T>(done: Seq<T>, rest: Result<Seq<T>, Error>) -> Result<Seq<T>, Error> {
    match rest {
        Err(e) => Err(e),
        Ok(more) => Ok(done + more),
    }
}

/// What the frames from `pos` on decode to: frame after frame until fewer
/// bytes than a header are left, which ends the run without error. The
/// first body that fails gives its error.
pub open spec fn spec_decode_messages(s: Seq<u8>, pos: int) -> Result<
    Seq<(MessageHeader, MessageView)>,
    Error,
>
    decreases s.len() - pos,
{
    match spec_decode_header(s, pos) {
        Err(_) => Ok(Seq::empty()),
        Ok(header) => {
            let message_type = spec_message_type(header.message_type);
            match spec_body_length(s, pos + HEADER_SIZE, message_type) {
                Err(e) => Err(e),
                Ok(len) => match spec_decode_message(s, pos + HEADER_SIZE, message_type) {
                    Err(e) => Err(e),
                    Ok(message) => prepend(
                        seq![(header, message)],
                        spec_decode_messages(s, pos + HEADER_SIZE + len),
                    ),
                },
            }
        },
    }
}

/// Whether a decoded run of frames is what the bytes say it is.
pub open spec fn frames_agree(
    r: Result<Vec<MessageWithHeader>, Error>,
    expected: Result<Seq<(MessageHeader, MessageView)>, Error>,
) -> bool {
    match expected {
        Err(e) => r == Err::<Vec<MessageWithHeader>, Error>(e),
        Ok(v) => r matches Ok(frames) && frame_views(frames@) == v,
    }
}

/// Decodes frames from the reader's position on until no further header
/// fits.
pub fn decode_messages(reader: &mut ByteReader) -> (r: Result<Vec<MessageWithHeader>, Error>)
    ensures
        frames_agree(r, spec_decode_messages(old(reader).data@, old(reader).position as int)),
        final(reader).data == old(reader).data,
{
    let ghost s = reader.data@;
    let ghost start = reader.position as int;
    let mut messages: Vec<MessageWithHeader> = Vec::new();
    proof {
        assert(frame_views(messages@) =~= Seq::empty());
        lemma_prepend_nothing(spec_decode_messages(s, start));
    }
    loop
        invariant
            reader.data@ == s,
            reader.data == old(reader).data,
            start == old(reader).position as int,
            spec_decode_messages(s, start) == prepend(
                frame_views(messages@),
                spec_decode_messages(s, reader.position as int),
            ),
        decreases spec_remaining(s, reader.position as int),
    {
        let ghost pos = reader.position as int;
        let header = match decode_message_header(reader) {
            Err(_) => {
                proof {
                    lemma_decode_messages_end(s, pos);
                    lemma_prepend_empty(frame_views(messages@));
                }
                return Ok(messages);
            },
            Ok(header) => header,
        };
        let message = match decode_message(reader, header.message_type()) {
            Err(e) => {
                proof {
                    lemma_decode_messages_fail(s, pos, e);
                }
                return Err(e);
            },
            Ok(message) => message,
        };
        proof {
            let frame = MessageWithHeader { header, message };
            assert(frame_views(messages@.push(frame)) =~= frame_views(messages@).push(frame@));
            lemma_decode_messages_step(s, pos);
            lemma_prepend_push(
                frame_views(messages@),
                frame@,
                spec_decode_messages(s, reader.position as int),
            );
        }
        messages.push(MessageWithHeader { header, message });
    }
}

/// Where no header fits, the run of frames is empty.
pub proof fn lemma_decode_messages_end(s: Seq<u8>, pos: int)
    requires
        spec_decode_header(s, pos) is Err,
    ensures
        spec_decode_messages(s, pos) == Ok::<Seq<(MessageHeader, MessageView)>, Error>(Seq::empty()),
{
}

/// Where the frame at `pos` fails with `e`, so does the run from `pos` on.
pub proof fn lemma_decode_messages_fail(s: Seq<u8>, pos: int, e: Error)
    requires
        spec_decode_header(s, pos) matches Ok(header) && spec_decode_message(
            s,
            pos + HEADER_SIZE,
            spec_message_type(header.message_type),
        ) == Err::<MessageView, Error>(e),
    ensures
        spec_decode_messages(s, pos) == Err::<Seq<(MessageHeader, MessageView)>, Error>(e),
{
}

/// Where the frame at `pos` decodes, the run from `pos` on is that frame
/// and then the run from the next frame on.
pub proof fn lemma_decode_messages_step(s: Seq<u8>, pos: int)
    requires
        spec_decode_header(s, pos) matches Ok(header) && spec_decode_message(
            s,
            pos + HEADER_SIZE,
            spec_message_type(header.message_type),
        ) is Ok,
    ensures
        spec_decode_messages(s, pos) == prepend(
            seq![
                (
                    spec_decode_header(s, pos)->Ok_0,
                    spec_decode_message(
                        s,
                        pos + HEADER_SIZE,
                        spec_message_type(spec_decode_header(s, pos)->Ok_0.message_type),
                    )->Ok_0,
                ),
            ],
            spec_decode_messages(s, pos + spec_frame_length(s, pos)),
        ),
{
}

/// Putting `done` and then one more item in front is putting `done` with
/// that item in front.
pub proof fn lemma_prepend_push<T>(done: Seq<T>, x: T, rest: Result<Seq<T>, Error>)
    ensures
        prepend(done, prepend(seq![x], rest)) == prepend(done.push(x), rest),
{
    match rest {
        Ok(more) => {
            assert(done + (seq![x] + more) =~= done.push(x) + more);
        },
        Err(_) => {},
    }
}

/// Putting `done` in front of an empty run gives `done`.
pub proof fn lemma_prepend_empty<T>(done: Seq<T>)
    ensures
        prepend(done, Ok(Seq::empty())) == Ok::<Seq<T>, Error>(done),
{
    assert(done + Seq::<T>::empty() =~= done);
}

/// Putting nothing in front of a result leaves it as it is.
pub proof fn lemma_prepend_nothing<T>(rest: Result<Seq<T>, Error>)
    ensures
        prepend(Seq::empty(), rest) == rest,
{
    match rest {
        Ok(more) => {
            assert(Seq::<T>::empty() + more =~= more);
        },
        Err(_) => {},
    }
}

/// A frame whose header and body are both there in full is consumed to the
/// byte: decoding the header and then the body moves the position by the
/// header's width plus the body's length, whatever the body holds.
pub proof fn lemma_frame_consumed_exactly(s: Seq<u8>, pos: int)
    requires
        0 <= pos,
    ensures
        spec_decode_header(s, pos) matches Ok(header) ==> (spec_body_length(
            s,
            pos + HEADER_SIZE,
            spec_message_type(header.message_type),
        ) matches Ok(len) ==> spec_frame_length(s, pos) == HEADER_SIZE + len && pos
            + spec_frame_length(s, pos) <= s.len() && (spec_message_type(header.message_type)
            != MessageType::RDADigitalRadarDataGenericFormat ==> spec_frame_length(s, pos)
            == FRAME_SIZE)),
{
}

} // verus!
