//! The clutter filter map: elevation segments of azimuth segments of range
//! zones, each list preceded by its count.

use vstd::prelude::*;
use crate::bytes::{read_u16_be, spec_u16_be};
use crate::result::Error;

verus! {

/// Width of the map's header in bytes.
pub const MAP_HEADER_SIZE: usize = 6;

/// Milliseconds in one day.
pub const MILLIS_PER_DAY: i64 = 86_400_000;

/// Header information of a clutter filter map.
#[derive(Clone, Copy, Debug, PartialEq, Eq, Structural)]
pub struct Header {
    /// The date the map was generated, a day count in which 1 January 1970
    /// is day one.
    pub map_generation_date: u16,
    /// The time the map was generated, in milliseconds past midnight, GMT.
    pub map_generation_time: u16,
    /// The number of elevation segments that follow the header.
    pub elevation_segment_count: u16,
}

/// The instant that a day count, in which 1 January 1970 is day one, and a
/// time of day name, in milliseconds since 1 January 1970 00:00 GMT.
pub open spec fn spec_timestamp_millis(date: u16, time: u16) -> int {
    (date as int - 1) * 86_400_000 + time as int
}

impl Header {
    /// The date and time the map was generated, in milliseconds since
    /// 1 January 1970 00:00 GMT.
    pub fn date_time(&self) -> (r: i64)
        ensures
            r == spec_timestamp_millis(self.map_generation_date, self.map_generation_time),
    {
        let days: i64 = self.map_generation_date as i64 - 1;
        let millis: i64 = self.map_generation_time as i64;
        days * MILLIS_PER_DAY + millis
    }
}

/// What a range zone's op code asks of the clutter filter.
#[derive(Clone, Copy, Debug, PartialEq, Eq, Structural)]
pub enum OpCode {
    /// The clutter filter is bypassed.
    BypassFilter,
    /// The bypass map decides.
    BypassMapInControl,
    /// The clutter filter is forced.
    ForceFilter,
    /// A code outside the three that are defined.
    Other(u16),
}

/// The op code that a raw word stands for.
pub open spec fn spec_op_code(raw: u16) -> OpCode {
    if raw == 0 {
        OpCode::BypassFilter
    } else if raw == 1 {
        OpCode::BypassMapInControl
    } else if raw == 2 {
        OpCode::ForceFilter
    } else {
        OpCode::Other(raw)
    }
}

/// One range zone: where it ends, and how clutter is treated up to there.
#[derive(Clone, Copy, Debug, PartialEq, Eq, Structural)]
pub struct RangeZone {
    /// The raw op code.
    pub op_code: u16,
    /// The last range gate of the zone, in range-gate units.
    pub end_range: u16,
}

impl RangeZone {
    /// How clutter is treated in this zone.
    pub fn op_code(&self) -> (r: OpCode)
        ensures
            r == spec_op_code(self.op_code),
    {
        if self.op_code == 0 {
            OpCode::BypassFilter
        } else if self.op_code == 1 {
            OpCode::BypassMapInControl
        } else if self.op_code == 2 {
            OpCode::ForceFilter
        } else {
            OpCode::Other(self.op_code)
        }
    }
}

/// The range zones along one azimuth.
#[derive(Clone, Debug, PartialEq, Eq)]
pub struct AzimuthSegment {
    pub range_zones: Vec<RangeZone>,
}

impl View for AzimuthSegment {
    type V = Seq<RangeZone>;

    open spec fn view(&self) -> Seq<RangeZone> {
        self.range_zones@
    }
}

/// The views of a run of azimuth segments.
pub open spec fn azimuth_views(v: Seq<AzimuthSegment>) -> Seq<Seq<RangeZone>> {
    v.map_values(|a: AzimuthSegment| a@)
}

/// The azimuth segments of one elevation.
#[derive(Clone, Debug, PartialEq, Eq)]
pub struct ElevationSegment {
    pub azimuth_segments: Vec<AzimuthSegment>,
}

impl View for ElevationSegment {
    type V = Seq<Seq<RangeZone>>;

    open spec fn view(&self) -> Seq<Seq<RangeZone>> {
        azimuth_views(self.azimuth_segments@)
    }
}

/// The views of a run of elevation segments.
pub open spec fn elevation_views(v: Seq<ElevationSegment>) -> Seq<Seq<Seq<RangeZone>>> {
    v.map_values(|e: ElevationSegment| e@)
}

/// A clutter filter map: which elevations, azimuths and ranges hold clutter
/// to be filtered.
#[derive(Clone, Debug, PartialEq, Eq)]
pub struct Message {
    /// Decoded header information.
    pub header: Header,
    /// The elevation segments, in the order of the wire.
    pub elevation_segments: Vec<ElevationSegment>,
}

impl View for Message {
    type V = (Header, Seq<Seq<Seq<RangeZone>>>);

    open spec fn view(&self) -> (Header, Seq<Seq<Seq<RangeZone>>>) {
        (self.header, elevation_views(self.elevation_segments@))
    }
}

impl Message {
    /// A map with the given header and no segment yet.
    pub fn new(header: Header) -> (r: Self)
        ensures
            r@ == (header, Seq::<Seq<Seq<RangeZone>>>::empty()),
            r.header == header,
            r.elevation_segments@.len() == 0,
    {
        let r = Self { elevation_segments: Vec::with_capacity(header.elevation_segment_count as usize), header };
        assert(elevation_views(r.elevation_segments@) =~= Seq::<Seq<Seq<RangeZone>>>::empty());
        r
    }
}

/// The header whose first byte is `s[0]`.
pub open spec fn spec_map_header(s: Seq<u8>) -> Header {
    Header {
        map_generation_date: spec_u16_be(s, 0),
        map_generation_time: spec_u16_be(s, 2),
        elevation_segment_count: spec_u16_be(s, 4),
    }
}

/// The range zone whose first byte is `s[pos]`.
pub open spec fn spec_zone_at(s: Seq<u8>, pos: int) -> RangeZone {
    RangeZone { op_code: spec_u16_be(s, pos), end_range: spec_u16_be(s, pos + 2) }
}

/// The `n` range zones that start at `pos`, four bytes each.
pub open spec fn spec_zones(s: Seq<u8>, pos: int, n: nat) -> Seq<RangeZone> {
    Seq::new(n, |i: int| spec_zone_at(s, pos + 4 * i))
}

/// The azimuth segment that starts at `pos` and the position behind it, or
/// `None` where `s` ends before the segment does.
pub open spec fn spec_azimuth_segment(s: Seq<u8>, pos: int) -> Option<(Seq<RangeZone>, int)> {
    if s.len() - pos < 2 {
        None
    } else if s.len() - (pos + 2) < 4 * spec_u16_be(s, pos) {
        None
    } else {
        Some(
            (
                spec_zones(s, pos + 2, spec_u16_be(s, pos) as nat),
                pos + 2 + 4 * spec_u16_be(s, pos),
            ),
        )
    }
}

/// The first `n` azimuth segments from `pos` on and the position behind
/// them, or `None` where `s` ends before they do.
pub open spec fn spec_azimuth_segments(s: Seq<u8>, pos: int, n: nat) -> Option<
    (Seq<Seq<RangeZone>>, int),
>
    decreases n,
{
    if n == 0 {
        Some((Seq::empty(), pos))
    } else {
        match spec_azimuth_segments(s, pos, (n - 1) as nat) {
            None => None,
            Some((init, p)) => match spec_azimuth_segment(s, p) {
                None => None,
                Some((seg, q)) => Some((init.push(seg), q)),
            },
        }
    }
}

/// The elevation segment that starts at `pos` and the position behind it, or
/// `None` where `s` ends before the segment does.
pub open spec fn spec_elevation_segment(s: Seq<u8>, pos: int) -> Option<
    (Seq<Seq<RangeZone>>, int),
> {
    if s.len() - pos < 2 {
        None
    } else {
        spec_azimuth_segments(s, pos + 2, spec_u16_be(s, pos) as nat)
    }
}

/// The first `n` elevation segments from `pos` on and the position behind
/// them, or `None` where `s` ends before they do.
pub open spec fn spec_elevation_segments(s: Seq<u8>, pos: int, n: nat) -> Option<
    (Seq<Seq<Seq<RangeZone>>>, int),
>
    decreases n,
{
    if n == 0 {
        Some((Seq::empty(), pos))
    } else {
        match spec_elevation_segments(s, pos, (n - 1) as nat) {
            None => None,
            Some((init, p)) => match spec_elevation_segment(s, p) {
                None => None,
                Some((seg, q)) => Some((init.push(seg), q)),
            },
        }
    }
}

/// What decoding a clutter filter map from `s` gives: `TruncatedMessage`
/// where the header does not fit, `SegmentCountMismatch` where `s` ends
/// before the declared number of elevation segments, else the header and
/// the segments.
pub open spec fn spec_decode_clutter_filter_map(s: Seq<u8>) -> Result<
    (Header, Seq<Seq<Seq<RangeZone>>>),
    Error,
> {
    if s.len() < MAP_HEADER_SIZE {
        Err(Error::TruncatedMessage)
    } else {
        match spec_elevation_segments(
            s,
            MAP_HEADER_SIZE as int,
            spec_map_header(s).elevation_segment_count as nat,
        ) {
            None => Err(Error::SegmentCountMismatch),
            Some((segments, _)) => Ok((spec_map_header(s), segments)),
        }
    }
}

/// Once a run of azimuth segments has overrun the input, a longer run does
/// too.
pub proof fn lemma_azimuth_segments_stay_none(s: Seq<u8>, pos: int, k: nat, n: nat)
    requires
        k <= n,
        spec_azimuth_segments(s, pos, k) is None,
    ensures
        spec_azimuth_segments(s, pos, n) is None,
    decreases n,
{
    if k < n {
        lemma_azimuth_segments_stay_none(s, pos, k, (n - 1) as nat);
    }
}

/// Once a run of elevation segments has overrun the input, a longer run
/// does too.
pub proof fn lemma_elevation_segments_stay_none(s: Seq<u8>, pos: int, k: nat, n: nat)
    requires
        k <= n,
        spec_elevation_segments(s, pos, k) is None,
    ensures
        spec_elevation_segments(s, pos, n) is None,
    decreases n,
{
    if k < n {
        lemma_elevation_segments_stay_none(s, pos, k, (n - 1) as nat);
    }
}

/// A run of `n` elevation segments that fits the input has `n` members.
pub proof fn lemma_elevation_segments_len(s: Seq<u8>, pos: int, n: nat)
    ensures
        spec_elevation_segments(s, pos, n) matches Some((v, _)) ==> v.len() == n,
    decreases n,
{
    if n > 0 {
        lemma_elevation_segments_len(s, pos, (n - 1) as nat);
    }
}

/// A clutter filter map that decodes holds as many elevation segments as
/// its header declares.
pub proof fn lemma_decoded_map_segment_count(s: Seq<u8>)
    ensures
        spec_decode_clutter_filter_map(s) matches Ok((header, segments)) ==> segments.len()
            == header.elevation_segment_count,
{
    if s.len() >= MAP_HEADER_SIZE {
        lemma_elevation_segments_len(
            s,
            MAP_HEADER_SIZE as int,
            spec_map_header(s).elevation_segment_count as nat,
        );
    }
}

/// Decodes `n` range zones from `pos` on.
pub(crate) fn decode_range_zones(body: &[u8], pos: usize, n: u16) -> (r: Vec<RangeZone>)
    requires
        pos + 4 * n <= body.len(),
    ensures
        r@ == spec_zones(body@, pos as int, n as nat),
{
    let mut zones: Vec<RangeZone> = Vec::new();
    let mut i: usize = 0;
    while i < n as usize
        invariant
            i <= n,
            pos + 4 * n <= body.len(),
            zones@ == spec_zones(body@, pos as int, i as nat),
        decreases n - i,
    {
        let at: usize = pos + 4 * i;
        zones.push(RangeZone { op_code: read_u16_be(body, at), end_range: read_u16_be(body, at + 2) });
        i += 1;
        assert(zones@ =~= spec_zones(body@, pos as int, i as nat));
    }
    zones
}

/// Decodes the azimuth segment that starts at `pos`; `None` where the input
/// ends before the segment does.
pub(crate) fn decode_azimuth_segment(body: &[u8], pos: usize) -> (r: Option<(AzimuthSegment, usize)>)
    requires
        pos <= body.len(),
    ensures
        match spec_azimuth_segment(body@, pos as int) {
            None => r is None,
            Some((zones, next)) => r matches Some((seg, p)) && seg@ == zones && p == next && p
                <= body.len(),
        },
{
    if body.len() - pos < 2 {
        return None;
    }
    let n: u16 = read_u16_be(body, pos);
    if (body.len() - (pos + 2)) / 4 < n as usize {
        return None;
    }
    let range_zones = decode_range_zones(body, pos + 2, n);
    Some((AzimuthSegment { range_zones }, pos + 2 + 4 * (n as usize)))
}

/// Decodes the elevation segment that starts at `pos`; `None` where the
/// input ends before the segment does.
pub(crate) fn decode_elevation_segment(body: &[u8], pos: usize) -> (r: Option<(ElevationSegment, usize)>)
    requires
        pos <= body.len(),
    ensures
        match spec_elevation_segment(body@, pos as int) {
            None => r is None,
            Some((azimuths, next)) => r matches Some((seg, p)) && seg@ == azimuths && p == next
                && p <= body.len(),
        },
{
    if body.len() - pos < 2 {
        return None;
    }
    let n: u16 = read_u16_be(body, pos);
    let start: usize = pos + 2;
    let mut segments: Vec<AzimuthSegment> = Vec::new();
    let mut cur: usize = start;
    let mut i: u16 = 0;
    while i < n
        invariant
            i <= n,
            cur <= body.len(),
            body.len() - pos >= 2,
            start == pos + 2,
            n == spec_u16_be(body@, pos as int),
            spec_azimuth_segments(body@, start as int, i as nat) == Some(
                (azimuth_views(segments@), cur as int),
            ),
        decreases n - i,
    {
        match decode_azimuth_segment(body, cur) {
            None => {
                proof {
                    assert(spec_azimuth_segments(body@, start as int, (i + 1) as nat) is None);
                    lemma_azimuth_segments_stay_none(body@, start as int, (i + 1) as nat, n as nat);
                }
                return None;
            },
            Some((seg, next)) => {
                proof {
                    assert(azimuth_views(segments@.push(seg)) =~= azimuth_views(segments@).push(
                        seg@,
                    ));
                }
                segments.push(seg);
                cur = next;
                i += 1;
            },
        }
    }
    Some((ElevationSegment { azimuth_segments: segments }, cur))
}

/// Decodes a clutter filter map from the start of `body`: the header, then
/// exactly as many elevation segments as it declares.
pub fn decode_clutter_filter_map(body: &[u8]) -> (r: Result<Message, Error>)
    ensures
        match spec_decode_clutter_filter_map(body@) {
            Err(e) => r == Err::<Message, Error>(e),
            Ok(m) => r matches Ok(message) && message@ == m,
        },
        r matches Ok(message) ==> message.elevation_segments@.len()
            == message.header.elevation_segment_count,
{
    if body.len() < MAP_HEADER_SIZE {
        return Err(Error::TruncatedMessage);
    }
    let header = Header {
        map_generation_date: read_u16_be(body, 0),
        map_generation_time: read_u16_be(body, 2),
        elevation_segment_count: read_u16_be(body, 4),
    };
    let n: u16 = header.elevation_segment_count;
    let mut message = Message::new(header);
    let mut cur: usize = MAP_HEADER_SIZE;
    let mut i: u16 = 0;
    while i < n
        invariant
            i <= n,
            cur <= body.len(),
            message.header == header,
            body.len() >= MAP_HEADER_SIZE,
            header == spec_map_header(body@),
            n == header.elevation_segment_count,
            message.elevation_segments@.len() == i,
            spec_elevation_segments(body@, MAP_HEADER_SIZE as int, i as nat) == Some(
                (elevation_views(message.elevation_segments@), cur as int),
            ),
        decreases n - i,
    {
        match decode_elevation_segment(body, cur) {
            None => {
                proof {
                    assert(spec_elevation_segments(body@, MAP_HEADER_SIZE as int, (i + 1) as nat)
                        is None);
                    lemma_elevation_segments_stay_none(
                        body@,
                        MAP_HEADER_SIZE as int,
                        (i + 1) as nat,
                        n as nat,
                    );
                }
                return Err(Error::SegmentCountMismatch);
            },
            Some((seg, next)) => {
                proof {
                    assert(elevation_views(message.elevation_segments@.push(seg))
                        =~= elevation_views(message.elevation_segments@).push(seg@));
                }
                message.elevation_segments.push(seg);
                cur = next;
                i += 1;
            },
        }
    }
    Ok(message)
}

} // verus!
