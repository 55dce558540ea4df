use std::io::Read;

use nexrad::chunk::{ChunkDate, ChunkMeta, EncodedChunk};
use nexrad::clutter_filter_map::{decode_clutter_filter_map, Header, OpCode, RangeZone};
use nexrad::data::{assemble_scans, Assembler, Radial, RadialStatus};
use nexrad::decompress::{
    decode_file_header, decompress_and_decode_archive2_file, decompress_ldm_record,
    decompress_records,
};
use nexrad::digital_radar_data::{decode_digital_radar_data, Moments, ProcessingStatus};
use nexrad::download::{downloaded_object, get_last_modified_header, response_step, ResponseStep};
use nexrad::message_header::{header_at, MessageHeader, MessageType};
use nexrad::messages::{
    decode_frame, decode_message, decode_message_header, decode_messages, Message,
};
use nexrad::rda_status_data::{decode_rda_status_message, ScanDataFlags};
use nexrad::reader::ByteReader;
use nexrad::result::Error;

fn put_u16(buf: &mut [u8], at: usize, value: u16) {
    buf[at..at + 2].copy_from_slice(&value.to_be_bytes());
}

fn put_u32(buf: &mut [u8], at: usize, value: u32) {
    buf[at..at + 4].copy_from_slice(&value.to_be_bytes());
}

fn header_bytes(message_type: u8, size_halfwords: u16) -> Vec<u8> {
    let mut h = vec![0u8; 28];
    put_u16(&mut h, 12, size_halfwords);
    h[14] = 1;
    h[15] = message_type;
    put_u16(&mut h, 16, 7);
    put_u16(&mut h, 18, 19_000);
    put_u32(&mut h, 20, 43_200_000);
    put_u16(&mut h, 24, 1);
    put_u16(&mut h, 26, 1);
    h
}

fn status_body(flags: u16) -> Vec<u8> {
    let mut b = vec![0u8; 2404];
    for i in 0..15u16 {
        put_u16(&mut b, (2 * i) as usize, 100 + i);
    }
    put_u16(&mut b, 26, flags);
    b
}

fn clutter_body() -> Vec<u8> {
    let mut b = vec![0u8; 2404];
    put_u16(&mut b, 0, 19_000);
    put_u16(&mut b, 2, 1_234);
    put_u16(&mut b, 4, 2);
    // first elevation segment: one azimuth segment with one range zone
    put_u16(&mut b, 6, 1);
    put_u16(&mut b, 8, 1);
    put_u16(&mut b, 10, 1);
    put_u16(&mut b, 12, 511);
    // second elevation segment
    put_u16(&mut b, 14, 1);
    put_u16(&mut b, 16, 1);
    put_u16(&mut b, 18, 2);
    put_u16(&mut b, 20, 300);
    b
}

fn frame(message_type: u8, body: Vec<u8>) -> Vec<u8> {
    let mut f = header_bytes(message_type, 1208);
    f.extend_from_slice(&body);
    f
}

/// A digital radar data frame with one reflectivity moment holding `samples`.
fn radar_body(status: u8, samples: &[u8]) -> Vec<u8> {
    let vol = 72usize;
    let elv = vol + 52;
    let rad = elv + 12;
    let reflectivity = rad + 28;
    let total = reflectivity + 28 + samples.len();
    let mut b = vec![0u8; total];
    b[0..4].copy_from_slice(b"KDMX");
    put_u32(&mut b, 4, 1_000);
    put_u16(&mut b, 8, 2);
    put_u16(&mut b, 10, 17);
    put_u32(&mut b, 12, 45.5f32.to_bits());
    put_u16(&mut b, 18, total as u16);
    b[20] = 1;
    b[21] = status;
    b[22] = 3;
    put_u32(&mut b, 24, 0.5f32.to_bits());
    put_u16(&mut b, 30, 4);
    put_u32(&mut b, 32, vol as u32);
    put_u32(&mut b, 36, elv as u32);
    put_u32(&mut b, 40, rad as u32);
    put_u32(&mut b, 44, reflectivity as u32);
    b[vol] = b'R';
    b[vol + 1..vol + 4].copy_from_slice(b"VOL");
    put_u16(&mut b, vol + 4, 52);
    put_u16(&mut b, vol + 16, 0xFFFE);
    put_u16(&mut b, vol + 18, 20);
    put_u16(&mut b, vol + 40, 212);
    put_u16(&mut b, vol + 42, 1);
    b[elv] = b'R';
    b[elv + 1..elv + 4].copy_from_slice(b"ELV");
    put_u16(&mut b, elv + 4, 12);
    b[rad] = b'R';
    b[rad + 1..rad + 4].copy_from_slice(b"RAD");
    put_u16(&mut b, rad + 4, 28);
    put_u16(&mut b, rad + 6, 460);
    b[reflectivity] = b'D';
    b[reflectivity + 1..reflectivity + 4].copy_from_slice(b"REF");
    put_u16(&mut b, reflectivity + 8, samples.len() as u16);
    put_u16(&mut b, reflectivity + 10, 2125);
    put_u16(&mut b, reflectivity + 12, 250);
    b[reflectivity + 19] = 8;
    b[reflectivity + 28..].copy_from_slice(samples);
    b
}

fn compress(bytes: &[u8]) -> Vec<u8> {
    let mut out = Vec::new();
    bzip2::read::BzEncoder::new(bytes, bzip2::Compression::default())
        .read_to_end(&mut out)
        .unwrap();
    out
}

fn record(bytes: &[u8]) -> Vec<u8> {
    let payload = compress(bytes);
    let mut r = (payload.len() as u32).to_be_bytes().to_vec();
    r.extend_from_slice(&payload);
    r
}

fn file_header() -> Vec<u8> {
    let mut h = b"AR2V0006.".to_vec();
    h.extend_from_slice(b"001");
    h.extend_from_slice(&19_000u32.to_be_bytes());
    h.extend_from_slice(&3_600_000u32.to_be_bytes());
    h.extend_from_slice(b"KDMX");
    h
}

fn empty_moments() -> Moments {
    Moments {
        reflectivity: None,
        velocity: None,
        spectrum_width: None,
        differential_reflectivity: None,
        differential_phase: None,
        correlation_coefficient: None,
        clutter_filter_power: None,
    }
}

fn radial(status: RadialStatus, azimuth_number: u16) -> Radial {
    Radial {
        collection_timestamp: 0,
        azimuth_number,
        azimuth_angle_bits: 0,
        azimuth_spacing_bits: 0x3F00_0000,
        radial_status: status,
        elevation_angle_bits: 0,
        volume_coverage_pattern_number: 212,
        moments: empty_moments(),
    }
}

#[test]
fn header_fields_are_read_big_endian() {
    let bytes = header_bytes(2, 1208);
    let header = header_at(&bytes, 0).unwrap();
    assert_eq!(
        header,
        MessageHeader {
            message_size: 1208,
            rda_redundant_channel: 1,
            message_type: 2,
            sequence_number: 7,
            date: 19_000,
            time: 43_200_000,
            segment_count: 1,
            segment_number: 1,
        }
    );
    assert_eq!(header.message_type(), MessageType::RDAStatusData);
}

#[test]
fn message_type_codes() {
    let mut header = header_at(&header_bytes(15, 0), 0).unwrap();
    assert_eq!(header.message_type(), MessageType::RDAClutterFilterMap);
    header.message_type = 31;
    assert_eq!(header.message_type(), MessageType::RDADigitalRadarDataGenericFormat);
    header.message_type = 5;
    assert_eq!(header.message_type(), MessageType::Other(5));
}

#[test]
fn short_header_is_truncated_header() {
    let mut reader = ByteReader::new(vec![0u8; 27]);
    assert_eq!(decode_message_header(&mut reader), Err(Error::TruncatedHeader));
    assert_eq!(reader.position(), 0);
    let mut empty = ByteReader::new(Vec::new());
    assert_eq!(decode_message_header(&mut empty), Err(Error::TruncatedHeader));
}

#[test]
fn fixed_frame_is_consumed_exactly() {
    let mut bytes = frame(2, status_body(0b0001));
    bytes.extend_from_slice(&[0xAA; 10]);
    let mut reader = ByteReader::new(bytes);
    let header = decode_message_header(&mut reader).unwrap();
    assert_eq!(reader.position(), 28);
    let message = decode_message(&mut reader, header.message_type()).unwrap();
    assert_eq!(reader.position(), 2432);
    assert!(matches!(message, Message::RDAStatusData(_)));
}

#[test]
fn body_is_consumed_even_when_its_content_fails() {
    let mut reader = ByteReader::new(frame(2, status_body(0b0011)));
    let header = decode_message_header(&mut reader).unwrap();
    assert_eq!(
        decode_message(&mut reader, header.message_type()),
        Err(Error::InconsistentFlagState)
    );
    assert_eq!(reader.position(), 2432);
}

#[test]
fn radar_frame_is_consumed_by_its_declared_length() {
    let body = radar_body(1, &[1, 2, 3, 4, 5]);
    let declared = body.len();
    let mut bytes = frame(31, body);
    bytes.extend_from_slice(&[0u8; 100]);
    let mut reader = ByteReader::new(bytes);
    let decoded = decode_frame(&mut reader).unwrap();
    assert_eq!(reader.position(), 28 + declared);
    assert!(matches!(decoded.message, Message::DigitalRadarData(_)));
}

#[test]
fn unrecognized_type_is_other_and_fills_the_slot() {
    let mut reader = ByteReader::new(frame(9, vec![0x55; 2404]));
    let decoded = decode_frame(&mut reader).unwrap();
    assert_eq!(decoded.message, Message::Other);
    assert_eq!(reader.position(), 2432);
}

#[test]
fn short_fixed_body_is_truncated_message() {
    let mut reader = ByteReader::new(vec![0u8; 2403]);
    assert_eq!(
        decode_message(&mut reader, MessageType::RDAStatusData),
        Err(Error::TruncatedMessage)
    );
    assert_eq!(reader.position(), 0);
}

#[test]
fn radar_frame_length_errors() {
    let mut short = radar_body(1, &[1, 2, 3]);
    put_u16(&mut short, 18, 71);
    let mut reader = ByteReader::new(short);
    assert_eq!(
        decode_message(&mut reader, MessageType::RDADigitalRadarDataGenericFormat),
        Err(Error::InvalidFrameLength)
    );
    let mut long = radar_body(1, &[1, 2, 3]);
    let len = long.len() as u16;
    put_u16(&mut long, 18, len + 1);
    let mut reader = ByteReader::new(long);
    assert_eq!(
        decode_message(&mut reader, MessageType::RDADigitalRadarDataGenericFormat),
        Err(Error::TruncatedMessage)
    );
    assert_eq!(reader.position(), 0);
}

#[test]
fn avset_flags_must_be_exclusive() {
    assert_eq!(ScanDataFlags::new(0b0001).avset_enabled(), Ok(true));
    assert_eq!(ScanDataFlags::new(0b0010).avset_enabled(), Ok(false));
    assert_eq!(ScanDataFlags::new(0b0011).avset_enabled(), Err(Error::InconsistentFlagState));
    assert_eq!(ScanDataFlags::new(0b0000).avset_enabled(), Err(Error::InconsistentFlagState));
    assert_eq!(ScanDataFlags::new(0b1100).avset_enabled(), Err(Error::InconsistentFlagState));
}

#[test]
fn other_flags_read_their_own_bits() {
    let flags = ScanDataFlags::new(0b10101);
    assert!(flags.ebc_enabled());
    assert!(!flags.rda_log_data_enabled());
    assert!(flags.time_series_data_recording_enabled());
    let flags = ScanDataFlags::new(0b01010);
    assert!(!flags.ebc_enabled());
    assert!(flags.rda_log_data_enabled());
    assert!(!flags.time_series_data_recording_enabled());
}

#[test]
fn status_payload_with_contradicting_avset_is_refused() {
    assert_eq!(
        decode_rda_status_message(&status_body(0b0011)),
        Err(Error::InconsistentFlagState)
    );
    assert_eq!(
        decode_rda_status_message(&status_body(0b0100)),
        Err(Error::InconsistentFlagState)
    );
}

#[test]
fn status_payload_decodes_its_words() {
    let message = decode_rda_status_message(&status_body(0b0110)).unwrap();
    assert_eq!(message.rda_status, 100);
    assert_eq!(message.operability_status, 101);
    assert_eq!(message.volume_coverage_pattern, 107);
    assert_eq!(message.clutter_mitigation_decision_status, 112);
    assert_eq!(message.scan_data_flags, ScanDataFlags(0b0110));
    assert_eq!(message.scan_data_flags.avset_enabled(), Ok(false));
    assert!(message.scan_data_flags.ebc_enabled());
    assert_eq!(message.rda_alarm_summary, 114);
    assert_eq!(decode_rda_status_message(&[0u8; 29]), Err(Error::TruncatedMessage));
}

#[test]
fn clutter_map_holds_the_declared_segments() {
    let map = decode_clutter_filter_map(&clutter_body()).unwrap();
    assert_eq!(
        map.header,
        Header { map_generation_date: 19_000, map_generation_time: 1_234, elevation_segment_count: 2 }
    );
    assert_eq!(map.elevation_segments.len(), 2);
    assert_eq!(map.elevation_segments[0].azimuth_segments.len(), 1);
    assert_eq!(
        map.elevation_segments[0].azimuth_segments[0].range_zones,
        vec![RangeZone { op_code: 1, end_range: 511 }]
    );
    assert_eq!(
        map.elevation_segments[1].azimuth_segments[0].range_zones,
        vec![RangeZone { op_code: 2, end_range: 300 }]
    );
    assert_eq!(
        map.elevation_segments[0].azimuth_segments[0].range_zones[0].op_code(),
        OpCode::BypassMapInControl
    );
    assert_eq!(RangeZone { op_code: 0, end_range: 1 }.op_code(), OpCode::BypassFilter);
    assert_eq!(RangeZone { op_code: 2, end_range: 1 }.op_code(), OpCode::ForceFilter);
    assert_eq!(RangeZone { op_code: 9, end_range: 1 }.op_code(), OpCode::Other(9));
}

#[test]
fn truncated_clutter_map_is_a_count_mismatch() {
    let body = clutter_body();
    // the input ends inside the second elevation segment
    assert_eq!(decode_clutter_filter_map(&body[..18]), Err(Error::SegmentCountMismatch));
    // the input ends right behind the first
    assert_eq!(decode_clutter_filter_map(&body[..14]), Err(Error::SegmentCountMismatch));
    // both segments fit exactly
    assert_eq!(decode_clutter_filter_map(&body[..22]).unwrap().elevation_segments.len(), 2);
    assert_eq!(decode_clutter_filter_map(&body[..5]), Err(Error::TruncatedMessage));
}

#[test]
fn clutter_map_with_no_segments() {
    let map = decode_clutter_filter_map(&[0, 1, 0, 2, 0, 0]).unwrap();
    assert!(map.elevation_segments.is_empty());
}

#[test]
fn clutter_map_timestamp() {
    let header = Header { map_generation_date: 2, map_generation_time: 500, elevation_segment_count: 0 };
    assert_eq!(header.date_time(), 86_400_500);
    let header = Header { map_generation_date: 1, map_generation_time: 0, elevation_segment_count: 0 };
    assert_eq!(header.date_time(), 0);
}

#[test]
fn reflectivity_samples_round_trip() {
    let samples: Vec<u8> = (0..=200u8).collect();
    let message = decode_digital_radar_data(&radar_body(1, &samples)).unwrap();
    let header = message.header;
    assert_eq!(header.radar_identifier, (b'K', b'D', b'M', b'X'));
    assert_eq!(header.azimuth_number, 17);
    assert_eq!(f32::from_bits(header.azimuth_angle), 45.5);
    assert_eq!(f32::from_bits(header.elevation_angle), 0.5);
    assert_eq!(message.volume.volume_coverage_pattern_number, 212);
    assert_eq!(message.volume.site_height, -2);
    assert_eq!(message.volume.feedhorn_height, 20);
    assert_eq!(message.volume.data_name(), "VOL");
    assert_eq!(message.volume.data_block_type(), 'R');
    assert_eq!(message.volume.processing_status(), ProcessingStatus::CBT);
    assert_eq!(message.elevation.data_name, (b'E', b'L', b'V'));
    assert_eq!(message.radial.unambiguous_range, 460);
    let radial = Radial::from_message(message).unwrap();
    let reflectivity = radial.moments.reflectivity.clone().unwrap();
    assert_eq!(reflectivity.header.gate_count, 201);
    assert_eq!(reflectivity.header.first_gate_range, 2125);
    assert_eq!(reflectivity.header.gate_interval, 250);
    assert_eq!(reflectivity.samples.len(), 201);
    assert_eq!(reflectivity.samples, samples);
    assert!(radial.moments.velocity.is_none());
    assert_eq!(radial.radial_status(), RadialStatus::IntermediateRadialData);
    assert_eq!(radial.azimuth_number(), 17);
    assert_eq!(radial.collection_timestamp(), 86_401_000);
    assert_eq!(f32::from_bits(radial.azimuth_spacing_bits), 0.5);
    assert_eq!(radial.volume_coverage_pattern_number, 212);
}

#[test]
fn moment_with_no_gates() {
    let message = decode_digital_radar_data(&radar_body(0, &[])).unwrap();
    assert_eq!(message.moments.reflectivity.unwrap().samples, Vec::<u8>::new());
}

#[test]
fn gate_count_beyond_the_frame_is_refused() {
    let mut body = radar_body(1, &[9, 9, 9]);
    let reflectivity = 72 + 52 + 12 + 28;
    put_u16(&mut body, reflectivity + 8, 4);
    assert_eq!(decode_digital_radar_data(&body), Err(Error::InvalidGateCount));
}

#[test]
fn missing_metadata_block_is_refused() {
    for at in [32usize, 36, 40] {
        let mut body = radar_body(1, &[9, 9, 9]);
        put_u32(&mut body, at, 0);
        assert_eq!(decode_digital_radar_data(&body), Err(Error::MissingRequiredBlock));
    }
}

#[test]
fn radar_blocks_beyond_the_frame_are_truncated() {
    let body = radar_body(1, &[9, 9, 9]);
    assert_eq!(decode_digital_radar_data(&body[..71]), Err(Error::TruncatedMessage));
    assert_eq!(decode_digital_radar_data(&body[..100]), Err(Error::TruncatedMessage));
    let mut far = radar_body(1, &[9, 9, 9]);
    put_u32(&mut far, 48, 10_000);
    assert_eq!(decode_digital_radar_data(&far), Err(Error::TruncatedMessage));
}

#[test]
fn unknown_radial_status_gives_no_radial() {
    let message = decode_digital_radar_data(&radar_body(6, &[1])).unwrap();
    assert_eq!(Radial::from_message(message), Err(Error::MalformedRadialSequence));
}

#[test]
fn two_sweeps_assemble_into_one_scan() {
    let statuses = [
        RadialStatus::VolumeScanStart,
        RadialStatus::IntermediateRadialData,
        RadialStatus::IntermediateRadialData,
        RadialStatus::ElevationEnd,
        RadialStatus::ElevationStart,
        RadialStatus::IntermediateRadialData,
        RadialStatus::ElevationEnd,
        RadialStatus::VolumeScanEnd,
    ];
    let radials: Vec<Radial> =
        statuses.iter().enumerate().map(|(i, s)| radial(*s, i as u16)).collect();
    let scans = assemble_scans(radials).unwrap();
    assert_eq!(scans.len(), 1);
    assert_eq!(scans[0].coverage_pattern_number(), 212);
    let sweeps = scans[0].sweeps();
    assert_eq!(sweeps.len(), 2);
    let first: Vec<u16> = sweeps[0].radials().iter().map(|r| r.azimuth_number()).collect();
    let second: Vec<u16> = sweeps[1].radials().iter().map(|r| r.azimuth_number()).collect();
    assert_eq!(first, vec![0, 1, 2, 3]);
    assert_eq!(second, vec![4, 5, 6]);
}

#[test]
fn volume_end_closes_an_open_sweep() {
    let radials = vec![
        radial(RadialStatus::VolumeScanStart, 0),
        radial(RadialStatus::ElevationEnd, 1),
        radial(RadialStatus::ElevationStartVCPFinal, 2),
        radial(RadialStatus::VolumeScanEnd, 3),
    ];
    let scans = assemble_scans(radials).unwrap();
    assert_eq!(scans.len(), 1);
    assert_eq!(scans[0].sweeps().len(), 2);
    assert_eq!(scans[0].sweeps()[1].radials().len(), 2);
}

#[test]
fn intermediate_radial_without_open_sweep_is_malformed() {
    let radials = vec![radial(RadialStatus::IntermediateRadialData, 0)];
    assert_eq!(assemble_scans(radials), Err(Error::MalformedRadialSequence));
    let radials = vec![
        radial(RadialStatus::VolumeScanStart, 0),
        radial(RadialStatus::ElevationEnd, 1),
        radial(RadialStatus::IntermediateRadialData, 2),
    ];
    assert_eq!(assemble_scans(radials), Err(Error::MalformedRadialSequence));
}

#[test]
fn second_volume_start_is_malformed() {
    let radials = vec![
        radial(RadialStatus::VolumeScanStart, 0),
        radial(RadialStatus::VolumeScanStart, 1),
    ];
    assert_eq!(assemble_scans(radials), Err(Error::MalformedRadialSequence));
    let state = Assembler::new();
    let (state, emitted) = state.step(radial(RadialStatus::VolumeScanStart, 0)).unwrap();
    assert!(emitted.is_none());
    assert!(matches!(state, Assembler::InSweep { .. }));
    assert_eq!(
        state.step(radial(RadialStatus::ElevationStart, 1)),
        Err(Error::MalformedRadialSequence)
    );
}

#[test]
fn unfinished_scan_is_malformed() {
    let radials = vec![
        radial(RadialStatus::VolumeScanStart, 0),
        radial(RadialStatus::IntermediateRadialData, 1),
    ];
    assert_eq!(assemble_scans(radials), Err(Error::MalformedRadialSequence));
    assert_eq!(assemble_scans(Vec::new()), Ok(Vec::new()));
}

#[test]
fn record_longer_than_the_input_is_truncated_body() {
    let mut bytes = 10u32.to_be_bytes().to_vec();
    bytes.extend_from_slice(&[1, 2, 3]);
    let mut reader = ByteReader::new(bytes);
    assert_eq!(decompress_ldm_record(&mut reader), Err(Error::TruncatedRecordBody));
    assert_eq!(reader.position(), 0);
}

#[test]
fn short_record_length_is_truncated_length() {
    let mut reader = ByteReader::new(vec![0, 0, 1]);
    assert_eq!(decompress_ldm_record(&mut reader), Err(Error::TruncatedRecordLength));
    let mut reader = ByteReader::new(vec![0, 0, 1]);
    assert_eq!(decompress_records(&mut reader), Err(Error::TruncatedRecordLength));
}

#[test]
fn malformed_payload_is_a_decompression_error() {
    let mut bytes = 6u32.to_be_bytes().to_vec();
    bytes.extend_from_slice(b"not bz");
    let mut reader = ByteReader::new(bytes);
    assert_eq!(decompress_ldm_record(&mut reader), Err(Error::DecompressionError));
    assert_eq!(reader.position(), 10);
}

#[test]
fn records_decompress_to_their_contents() {
    let first: Vec<u8> = (0..=255u8).cycle().take(5_000).collect();
    let second = b"second record".to_vec();
    let mut stream = record(&first);
    stream.extend_from_slice(&record(&second));
    let mut reader = ByteReader::new(stream.clone());
    assert_eq!(decompress_records(&mut reader), Ok(vec![first.clone(), second]));
    assert_eq!(reader.position(), stream.len());
    let mut reader = ByteReader::new(stream);
    assert_eq!(decompress_ldm_record(&mut reader), Ok(first));
    let mut empty = ByteReader::new(Vec::new());
    assert_eq!(decompress_records(&mut empty), Ok(Vec::new()));
}

#[test]
fn file_header_fields() {
    let mut reader = ByteReader::new(file_header());
    let header = decode_file_header(&mut reader).unwrap();
    assert_eq!(header.filename, b"AR2V0006.".to_vec());
    assert_eq!(header.ext, b"001".to_vec());
    assert_eq!(header.file_date, 19_000);
    assert_eq!(header.file_time, 3_600_000);
    assert_eq!(header.unused1, b"KDMX".to_vec());
    assert_eq!(reader.position(), 24);
    let mut short = ByteReader::new(vec![0u8; 23]);
    assert_eq!(decode_file_header(&mut short), Err(Error::TruncatedFileHeader));
}

#[test]
fn frames_decode_until_no_header_fits() {
    let mut bytes = frame(2, status_body(0b0010));
    bytes.extend_from_slice(&frame(31, radar_body(3, &[7, 8])));
    bytes.extend_from_slice(&frame(4, vec![0u8; 2404]));
    bytes.extend_from_slice(&[0u8; 20]);
    let mut reader = ByteReader::new(bytes);
    let frames = decode_messages(&mut reader).unwrap();
    assert_eq!(frames.len(), 3);
    assert!(matches!(frames[0].message, Message::RDAStatusData(_)));
    assert!(matches!(frames[1].message, Message::DigitalRadarData(_)));
    assert_eq!(frames[2].message, Message::Other);
    assert_eq!(frames[1].header.message_type, 31);
}

#[test]
fn frame_cut_inside_its_body_fails_the_run() {
    let mut bytes = frame(2, status_body(0b0010));
    bytes.extend_from_slice(&header_bytes(2, 1208));
    bytes.extend_from_slice(&[0u8; 100]);
    let mut reader = ByteReader::new(bytes);
    assert_eq!(decode_messages(&mut reader), Err(Error::TruncatedMessage));
}

#[test]
fn compressed_file_decodes_end_to_end() {
    let mut frames = frame(2, status_body(0b1001));
    frames.extend_from_slice(&frame(15, clutter_body()));
    let mut file = file_header();
    file.extend_from_slice(&record(&frames));
    let mut reader = ByteReader::new(file);
    let archive = decompress_and_decode_archive2_file(&mut reader).unwrap();
    assert_eq!(archive.header.filename, b"AR2V0006.".to_vec());
    assert_eq!(archive.records.len(), 2);
    match &archive.records[0].message {
        Message::RDAStatusData(status) => {
            assert_eq!(status.rda_status, 100);
            assert_eq!(status.scan_data_flags.avset_enabled(), Ok(true));
            assert!(status.scan_data_flags.rda_log_data_enabled());
            assert!(!status.scan_data_flags.ebc_enabled());
        }
        other => panic!("unexpected message {:?}", other),
    }
    assert_eq!(archive.records[0].header.message_type(), MessageType::RDAStatusData);
    match &archive.records[1].message {
        Message::ClutterFilterMap(map) => {
            assert_eq!(map.header.elevation_segment_count, 2);
            assert_eq!(map.elevation_segments.len(), 2);
            for segment in &map.elevation_segments {
                assert_eq!(segment.azimuth_segments.len(), 1);
                assert_eq!(segment.azimuth_segments[0].range_zones.len(), 1);
            }
            assert_eq!(
                map.elevation_segments[1].azimuth_segments[0].range_zones[0],
                RangeZone { op_code: 2, end_range: 300 }
            );
        }
        other => panic!("unexpected message {:?}", other),
    }
}

#[test]
fn file_with_a_cut_record_fails() {
    let mut file = file_header();
    let mut rec = record(&frame(2, status_body(0b0001)));
    rec.truncate(rec.len() - 1);
    file.extend_from_slice(&rec);
    let mut reader = ByteReader::new(file);
    assert_eq!(
        decompress_and_decode_archive2_file(&mut reader),
        Err(Error::TruncatedRecordBody)
    );
}

#[test]
fn compressed_chunk_is_told_by_its_signature() {
    let meta = ChunkMeta::new(
        "KDMX".to_string(),
        ChunkDate { year: 2023, month: 4, day: 6 },
        "20230406-000000-001-S".to_string(),
    );
    assert_eq!(meta.site(), "KDMX");
    assert_eq!(*meta.date(), ChunkDate { year: 2023, month: 4, day: 6 });
    assert_eq!(meta.identifier(), "20230406-000000-001-S");
    let mut data = vec![0u8; 30];
    data[28] = b'B';
    data[29] = b'Z';
    let chunk = EncodedChunk::new(meta.clone(), data.clone());
    assert!(chunk.compressed());
    assert_eq!(chunk.data(), &data);
    assert_eq!(chunk.meta(), &meta);
    assert!(!EncodedChunk::new(meta.clone(), data[..29].to_vec()).compressed());
    data[29] = b'z';
    assert!(!EncodedChunk::new(meta, data).compressed());
}

#[test]
fn last_modified_header_is_parsed() {
    assert_eq!(
        get_last_modified_header(Some("Wed, 18 Feb 2015 23:16:09 GMT")),
        Some(1_424_301_369_000)
    );
    assert_eq!(
        get_last_modified_header(Some("Wed, 18 Feb 2015 23:16:09 +0100")),
        Some(1_424_297_769_000)
    );
    assert_eq!(get_last_modified_header(Some("yesterday")), None);
    assert_eq!(get_last_modified_header(None), None);
    assert_eq!(response_step(404), ResponseStep::ObjectNotFound);
    assert_eq!(response_step(200), ResponseStep::ReadObject);
    assert_eq!(response_step(500), ResponseStep::ReadFailure);
    let object = downloaded_object("a/b".to_string(), Some("Thu, 1 Jan 1970 00:00:01 GMT"), vec![1, 2]);
    assert_eq!(object.key, "a/b");
    assert_eq!(object.last_modified, Some(1_000));
    assert_eq!(object.data, vec![1, 2]);
}
