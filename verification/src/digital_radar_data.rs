//! The digital radar data message: a header block with a table of offsets,
//! three metadata blocks and up to seven moment blocks of gate samples.
//!
//! Floating-point fields are kept as the 32 bits read from the wire.

use vstd::prelude::*;
use crate::bytes::{read_u16_be, read_u32_be, spec_u16_be, spec_u32_be};
use crate::result::Error;

verus! {

/// Width of the header block: thirty-two bytes of fields, ten offsets.
pub const DATA_HEADER_SIZE: usize = 72;

/// Width of a volume data block.
pub const VOLUME_BLOCK_SIZE: usize = 52;

/// Width of an elevation data block.
pub const ELEVATION_BLOCK_SIZE: usize = 12;

/// Width of a radial data block.
pub const RADIAL_BLOCK_SIZE: usize = 28;

/// Width of the fields that precede a moment block's samples.
pub const MOMENT_HEADER_SIZE: usize = 28;

/// The header block of a digital radar data message.
#[derive(Clone, Copy, Debug, PartialEq, Eq)]
pub struct DataHeaderBlock {
    /// The four characters of the site identifier.
    pub radar_identifier: (u8, u8, u8, u8),
    /// Collection time in milliseconds past midnight, GMT.
    pub time: u32,
    /// Collection date, a day count in which 1 January 1970 is day one.
    pub date: u16,
    /// Index of the radial within its elevation sweep.
    pub azimuth_number: u16,
    /// Azimuth angle in degrees, as the bits of a 32-bit float.
    pub azimuth_angle: u32,
    pub compression_indicator: u8,
    /// Length of the whole message in bytes, this block included.
    pub radial_length: u16,
    /// Code of the azimuthal spacing between radials.
    pub azimuth_resolution_spacing: u8,
    /// Code of the radial's place in its sweep and scan.
    pub radial_status: u8,
    pub elevation_number: u8,
    pub cut_sector_number: u8,
    /// Elevation angle in degrees, as the bits of a 32-bit float.
    pub elevation_angle: u32,
    pub radial_spot_blanking_status: u8,
    pub azimuth_indexing_mode: u8,
    pub data_block_count: u16,
    /// Offset of the volume data block from the start of the message.
    pub volume_pointer: u32,
    /// Offset of the elevation data block.
    pub elevation_pointer: u32,
    /// Offset of the radial data block.
    pub radial_pointer: u32,
    /// Offsets of the moment blocks for reflectivity, velocity, spectrum
    /// width, differential reflectivity, differential phase, correlation
    /// coefficient and clutter filter power; zero where a moment is absent.
    pub moment_pointers: (u32, u32, u32, u32, u32, u32, u32),
}

/// How a volume was processed.
#[derive(Clone, Copy, Debug, PartialEq, Eq, Structural)]
pub enum ProcessingStatus {
    RxRNoise,
    CBT,
    Other(u16),
}

/// The processing status that a raw word stands for.
pub open spec fn spec_processing_status(raw: u16) -> ProcessingStatus {
    if raw == 0 {
        ProcessingStatus::RxRNoise
    } else if raw == 1 {
        ProcessingStatus::CBT
    } else {
        ProcessingStatus::Other(raw)
    }
}

/// A volume data block: where the radar stands and how it is calibrated.
#[derive(Clone, Copy, Debug, PartialEq, Eq)]
pub struct VolumeDataBlock {
    /// Data block type, "R".
    pub data_block_type: u8,
    /// Data block name, e.g. "VOL".
    pub data_name: (u8, u8, u8),
    /// Size of data block in bytes.
    pub lrtup: u16,
    pub major_version_number: u8,
    pub minor_version_number: u8,
    /// Latitude of radar in degrees, as float bits.
    pub latitude: u32,
    /// Longitude of radar in degrees, as float bits.
    pub longitude: u32,
    /// Height of site base above sea level in meters.
    pub site_height: i16,
    /// Height of feedhorn above ground in meters.
    pub feedhorn_height: u16,
    /// Reflectivity scaling factor in dB, as float bits.
    pub calibration_constant: u32,
    /// Transmitter power for horizontal channel in kW, as float bits.
    pub horizontal_shv_tx_power: u32,
    /// Transmitter power for vertical channel in kW, as float bits.
    pub vertical_shv_tx_power: u32,
    /// Calibration of system ZDR in dB, as float bits.
    pub system_differential_reflectivity: u32,
    /// Initial DP for the system in degrees, as float bits.
    pub initial_system_differential_phase: u32,
    /// Identifies the volume coverage pattern in use.
    pub volume_coverage_pattern_number: u16,
    /// Processing option flags, raw.
    pub processing_status: u16,
    /// RPG weighted mean ZDR bias estimate in dB.
    pub zdr_bias_estimate_weighted_mean: u16,
}

/// The text that three ASCII bytes spell.
pub open spec fn spec_ascii3(name: (u8, u8, u8)) -> Seq<char> {
    seq![name.0 as char, name.1 as char, name.2 as char]
}

/// `String::from_utf8_lossy` of std, on three bytes. Where each byte is
/// ASCII the three are valid UTF-8 and the text is those characters; of
/// other bytes nothing is claimed.
#[verifier::external_body]
fn lossy_text(b0: u8, b1: u8, b2: u8) -> (r: String)
    ensures
        b0 < 128 && b1 < 128 && b2 < 128 ==> r@ == spec_ascii3((b0, b1, b2)),
{
    String::from_utf8_lossy(&[b0, b1, b2]).into_owned()
}

impl VolumeDataBlock {
    /// Data block type, "R".
    pub fn data_block_type(&self) -> (r: char)
        ensures
            r == self.data_block_type as char,
    {
        self.data_block_type as char
    }

    /// Data block name, e.g. "VOL". Bytes that are not valid text are
    /// replaced.
    pub fn data_name(&self) -> (r: String)
        ensures
            self.data_name.0 < 128 && self.data_name.1 < 128 && self.data_name.2 < 128 ==> r@
                == spec_ascii3(self.data_name),
    {
        lossy_text(self.data_name.0, self.data_name.1, self.data_name.2)
    }

    /// Processing option flags.
    pub fn processing_status(&self) -> (r: ProcessingStatus)
        ensures
            r == spec_processing_status(self.processing_status),
    {
        if self.processing_status == 0 {
            ProcessingStatus::RxRNoise
        } else if self.processing_status == 1 {
            ProcessingStatus::CBT
        } else {
            ProcessingStatus::Other(self.processing_status)
        }
    }
}

/// An elevation data block.
#[derive(Clone, Copy, Debug, PartialEq, Eq)]
pub struct ElevationDataBlock {
    pub data_block_type: u8,
    pub data_name: (u8, u8, u8),
    pub lrtup: u16,
    /// Atmospheric attenuation factor, a two's-complement word.
    pub atmos: i16,
    /// Scaling constant for this elevation in dB, as float bits.
    pub calibration_constant: u32,
}

/// A radial data block.
#[derive(Clone, Copy, Debug, PartialEq, Eq)]
pub struct RadialDataBlock {
    pub data_block_type: u8,
    pub data_name: (u8, u8, u8),
    pub lrtup: u16,
    pub unambiguous_range: u16,
    /// Noise level of the horizontal channel in dBm, as float bits.
    pub horizontal_channel_noise_level: u32,
    /// Noise level of the vertical channel in dBm, as float bits.
    pub vertical_channel_noise_level: u32,
    pub nyquist_velocity: u16,
    pub radial_flags: u16,
    /// Calibration constant of the horizontal channel, as float bits.
    pub horizontal_channel_calibration_constant: u32,
    /// Calibration constant of the vertical channel, as float bits.
    pub vertical_channel_calibration_constant: u32,
}

/// The fields that open a moment block.
#[derive(Clone, Copy, Debug, PartialEq, Eq)]
pub struct MomentHeader {
    pub data_block_type: u8,
    pub data_name: (u8, u8, u8),
    /// Number of gates in this moment.
    pub gate_count: u16,
    /// Range to the centre of the first gate.
    pub first_gate_range: u16,
    /// Distance between gates.
    pub gate_interval: u16,
    pub tover: u16,
    pub snr_threshold: i16,
    pub control_flags: u8,
    pub data_word_size: u8,
    /// Scale of the samples, as float bits.
    pub scale: u32,
    /// Offset of the samples, as float bits.
    pub offset: u32,
}

/// One moment: its header and one raw sample per gate.
#[derive(Clone, Debug, PartialEq, Eq)]
pub struct MomentBlock {
    pub header: MomentHeader,
    pub samples: Vec<u8>,
}

impl View for MomentBlock {
    type V = (MomentHeader, Seq<u8>);

    open spec fn view(&self) -> (MomentHeader, Seq<u8>) {
        (self.header, self.samples@)
    }
}

/// The view of a moment that may be absent.
pub open spec fn moment_view(m: Option<MomentBlock>) -> Option<(MomentHeader, Seq<u8>)> {
    match m {
        None => None,
        Some(b) => Some(b@),
    }
}

/// The seven moments of a radial, each present or absent.
#[derive(Clone, Debug, PartialEq, Eq)]
pub struct Moments {
    pub reflectivity: Option<MomentBlock>,
    pub velocity: Option<MomentBlock>,
    pub spectrum_width: Option<MomentBlock>,
    pub differential_reflectivity: Option<MomentBlock>,
    pub differential_phase: Option<MomentBlock>,
    pub correlation_coefficient: Option<MomentBlock>,
    pub clutter_filter_power: Option<MomentBlock>,
}

/// The seven moments as headers and sample sequences.
pub struct MomentsView {
    pub reflectivity: Option<(MomentHeader, Seq<u8>)>,
    pub velocity: Option<(MomentHeader, Seq<u8>)>,
    pub spectrum_width: Option<(MomentHeader, Seq<u8>)>,
    pub differential_reflectivity: Option<(MomentHeader, Seq<u8>)>,
    pub differential_phase: Option<(MomentHeader, Seq<u8>)>,
    pub correlation_coefficient: Option<(MomentHeader, Seq<u8>)>,
    pub clutter_filter_power: Option<(MomentHeader, Seq<u8>)>,
}

impl View for Moments {
    type V = MomentsView;

    open spec fn view(&self) -> MomentsView {
        MomentsView {
            reflectivity: moment_view(self.reflectivity),
            velocity: moment_view(self.velocity),
            spectrum_width: moment_view(self.spectrum_width),
            differential_reflectivity: moment_view(self.differential_reflectivity),
            differential_phase: moment_view(self.differential_phase),
            correlation_coefficient: moment_view(self.correlation_coefficient),
            clutter_filter_power: moment_view(self.clutter_filter_power),
        }
    }
}

/// A decoded digital radar data message.
#[derive(Clone, Debug, PartialEq, Eq)]
pub struct Message {
    pub header: DataHeaderBlock,
    pub volume: VolumeDataBlock,
    pub elevation: ElevationDataBlock,
    pub radial: RadialDataBlock,
    pub moments: Moments,
}

/// A digital radar data message with its samples as sequences.
pub struct MessageView {
    pub header: DataHeaderBlock,
    pub volume: VolumeDataBlock,
    pub elevation: ElevationDataBlock,
    pub radial: RadialDataBlock,
    pub moments: MomentsView,
}

impl View for Message {
    type V = MessageView;

    open spec fn view(&self) -> MessageView {
        MessageView {
            header: self.header,
            volume: self.volume,
            elevation: self.elevation,
            radial: self.radial,
            moments: self.moments@,
        }
    }
}

/// The three bytes from `s[at]` on.
pub open spec fn spec_name_at(s: Seq<u8>, at: int) -> (u8, u8, u8) {
    (s[at], s[at + 1], s[at + 2])
}

/// The two's-complement reading of a 16-bit word.
pub open spec fn spec_signed(raw: u16) -> i16 {
    raw as i16
}

/// The header block whose first byte is `s[0]`.
pub open spec fn spec_data_header(s: Seq<u8>) -> DataHeaderBlock {
    DataHeaderBlock {
        radar_identifier: (s[0], s[1], s[2], s[3]),
        time: spec_u32_be(s, 4),
        date: spec_u16_be(s, 8),
        azimuth_number: spec_u16_be(s, 10),
        azimuth_angle: spec_u32_be(s, 12),
        compression_indicator: s[16],
        radial_length: spec_u16_be(s, 18),
        azimuth_resolution_spacing: s[20],
        radial_status: s[21],
        elevation_number: s[22],
        cut_sector_number: s[23],
        elevation_angle: spec_u32_be(s, 24),
        radial_spot_blanking_status: s[28],
        azimuth_indexing_mode: s[29],
        data_block_count: spec_u16_be(s, 30),
        volume_pointer: spec_u32_be(s, 32),
        elevation_pointer: spec_u32_be(s, 36),
        radial_pointer: spec_u32_be(s, 40),
        moment_pointers: (
            spec_u32_be(s, 44),
            spec_u32_be(s, 48),
            spec_u32_be(s, 52),
            spec_u32_be(s, 56),
            spec_u32_be(s, 60),
            spec_u32_be(s, 64),
            spec_u32_be(s, 68),
        ),
    }
}

/// The volume data block whose first byte is `s[at]`.
pub open spec fn spec_volume_block(s: Seq<u8>, at: int) -> VolumeDataBlock {
    VolumeDataBlock {
        data_block_type: s[at],
        data_name: spec_name_at(s, at + 1),
        lrtup: spec_u16_be(s, at + 4),
        major_version_number: s[at + 6],
        minor_version_number: s[at + 7],
        latitude: spec_u32_be(s, at + 8),
        longitude: spec_u32_be(s, at + 12),
        site_height: spec_signed(spec_u16_be(s, at + 16)),
        feedhorn_height: spec_u16_be(s, at + 18),
        calibration_constant: spec_u32_be(s, at + 20),
        horizontal_shv_tx_power: spec_u32_be(s, at + 24),
        vertical_shv_tx_power: spec_u32_be(s, at + 28),
        system_differential_reflectivity: spec_u32_be(s, at + 32),
        initial_system_differential_phase: spec_u32_be(s, at + 36),
        volume_coverage_pattern_number: spec_u16_be(s, at + 40),
        processing_status: spec_u16_be(s, at + 42),
        zdr_bias_estimate_weighted_mean: spec_u16_be(s, at + 44),
    }
}

/// The elevation data block whose first byte is `s[at]`.
pub open spec fn spec_elevation_block(s: Seq<u8>, at: int) -> ElevationDataBlock {
    ElevationDataBlock {
        data_block_type: s[at],
        data_name: spec_name_at(s, at + 1),
        lrtup: spec_u16_be(s, at + 4),
        atmos: spec_signed(spec_u16_be(s, at + 6)),
        calibration_constant: spec_u32_be(s, at + 8),
    }
}

/// The radial data block whose first byte is `s[at]`.
pub open spec fn spec_radial_block(s: Seq<u8>, at: int) -> RadialDataBlock {
    RadialDataBlock {
        data_block_type: s[at],
        data_name: spec_name_at(s, at + 1),
        lrtup: spec_u16_be(s, at + 4),
        unambiguous_range: spec_u16_be(s, at + 6),
        horizontal_channel_noise_level: spec_u32_be(s, at + 8),
        vertical_channel_noise_level: spec_u32_be(s, at + 12),
        nyquist_velocity: spec_u16_be(s, at + 16),
        radial_flags: spec_u16_be(s, at + 18),
        horizontal_channel_calibration_constant: spec_u32_be(s, at + 20),
        vertical_channel_calibration_constant: spec_u32_be(s, at + 24),
    }
}

/// The moment header whose first byte is `s[at]`.
pub open spec fn spec_moment_header(s: Seq<u8>, at: int) -> MomentHeader {
    MomentHeader {
        data_block_type: s[at],
        data_name: spec_name_at(s, at + 1),
        gate_count: spec_u16_be(s, at + 8),
        first_gate_range: spec_u16_be(s, at + 10),
        gate_interval: spec_u16_be(s, at + 12),
        tover: spec_u16_be(s, at + 14),
        snr_threshold: spec_signed(spec_u16_be(s, at + 16)),
        control_flags: s[at + 18],
        data_word_size: s[at + 19],
        scale: spec_u32_be(s, at + 20),
        offset: spec_u32_be(s, at + 24),
    }
}

/// Whether a block of `size` bytes at offset `at` lies inside `s`.
pub open spec fn spec_fits(s: Seq<u8>, at: int, size: int) -> bool {
    at + size <= s.len()
}

/// What the moment block at offset `pointer` of the frame `s` decodes to:
/// nothing where the offset is zero; `TruncatedMessage` where its header
/// overruns the frame; `InvalidGateCount` where its samples do; else the
/// header and one sample byte per gate.
pub open spec fn spec_decode_moment(s: Seq<u8>, pointer: u32) -> Result<
    Option<(MomentHeader, Seq<u8>)>,
    Error,
> {
    if pointer == 0 {
        Ok(None)
    } else if !spec_fits(s, pointer as int, MOMENT_HEADER_SIZE as int) {
        Err(Error::TruncatedMessage)
    } else if !spec_fits(
        s,
        pointer + MOMENT_HEADER_SIZE,
        spec_moment_header(s, pointer as int).gate_count as int,
    ) {
        Err(Error::InvalidGateCount)
    } else {
        Ok(
            Some(
                (
                    spec_moment_header(s, pointer as int),
                    s.subrange(
                        pointer + MOMENT_HEADER_SIZE,
                        pointer + MOMENT_HEADER_SIZE + spec_moment_header(
                            s,
                            pointer as int,
                        ).gate_count,
                    ),
                ),
            ),
        )
    }
}

/// What the seven moment blocks named by `pointers` decode to: the error of
/// the first block that fails, else all seven.
pub open spec fn spec_decode_moments(
    s: Seq<u8>,
    pointers: (u32, u32, u32, u32, u32, u32, u32),
) -> Result<MomentsView, Error> {
    match spec_decode_moment(s, pointers.0) {
        Err(e) => Err(e),
        Ok(reflectivity) => match spec_decode_moment(s, pointers.1) {
            Err(e) => Err(e),
            Ok(velocity) => match spec_decode_moment(s, pointers.2) {
                Err(e) => Err(e),
                Ok(spectrum_width) => match spec_decode_moment(s, pointers.3) {
                    Err(e) => Err(e),
                    Ok(differential_reflectivity) => match spec_decode_moment(s, pointers.4) {
                        Err(e) => Err(e),
                        Ok(differential_phase) => match spec_decode_moment(s, pointers.5) {
                            Err(e) => Err(e),
                            Ok(correlation_coefficient) => match spec_decode_moment(
                                s,
                                pointers.6,
                            ) {
                                Err(e) => Err(e),
                                Ok(clutter_filter_power) => Ok(
                                    MomentsView {
                                        reflectivity,
                                        velocity,
                                        spectrum_width,
                                        differential_reflectivity,
                                        differential_phase,
                                        correlation_coefficient,
                                        clutter_filter_power,
                                    },
                                ),
                            },
                        },
                    },
                },
            },
        },
    }
}

/// What the frame `s` decodes to. The frame is the whole message, from the
/// first byte of its header block to the last byte that the header's radial
/// length counts. `TruncatedMessage` where the header block or a metadata
/// block overruns the frame; `MissingRequiredBlock` where the offset of the
/// volume, elevation or radial block is zero; else as the moments decide.
pub open spec fn spec_decode_digital_radar_data(s: Seq<u8>) -> Result<MessageView, Error> {
    let header = spec_data_header(s);
    if s.len() < DATA_HEADER_SIZE {
        Err(Error::TruncatedMessage)
    } else if header.volume_pointer == 0 || header.elevation_pointer == 0 || header.radial_pointer
        == 0 {
        Err(Error::MissingRequiredBlock)
    } else if !spec_fits(s, header.volume_pointer as int, VOLUME_BLOCK_SIZE as int) || !spec_fits(
        s,
        header.elevation_pointer as int,
        ELEVATION_BLOCK_SIZE as int,
    ) || !spec_fits(s, header.radial_pointer as int, RADIAL_BLOCK_SIZE as int) {
        Err(Error::TruncatedMessage)
    } else {
        match spec_decode_moments(s, header.moment_pointers) {
            Err(e) => Err(e),
            Ok(moments) => Ok(
                MessageView {
                    header,
                    volume: spec_volume_block(s, header.volume_pointer as int),
                    elevation: spec_elevation_block(s, header.elevation_pointer as int),
                    radial: spec_radial_block(s, header.radial_pointer as int),
                    moments,
                },
            ),
        }
    }
}

/// Whether `size` bytes at offset `pointer` lie inside `body`.
pub fn fits(body: &[u8], pointer: u32, size: usize) -> (r: bool)
    ensures
        r == spec_fits(body@, pointer as int, size as int),
        body@.len() <= usize::MAX,
{
    let at: usize = pointer as usize;
    at <= body.len() && body.len() - at >= size
}

fn read_name(body: &[u8], at: usize) -> (r: (u8, u8, u8))
    requires
        at + 3 <= body.len(),
    ensures
        r == spec_name_at(body@, at as int),
{
    (body[at], body[at + 1], body[at + 2])
}

fn read_signed(body: &[u8], at: usize) -> (r: i16)
    requires
        at + 2 <= body.len(),
    ensures
        r == spec_signed(spec_u16_be(body@, at as int)),
{
    read_u16_be(body, at) as i16
}

/// Decodes the header block at the start of `body`.
pub(crate) fn decode_data_header(body: &[u8]) -> (r: DataHeaderBlock)
    requires
        body.len() >= DATA_HEADER_SIZE,
    ensures
        r == spec_data_header(body@),
{
    DataHeaderBlock {
        radar_identifier: (body[0], body[1], body[2], body[3]),
        time: read_u32_be(body, 4),
        date: read_u16_be(body, 8),
        azimuth_number: read_u16_be(body, 10),
        azimuth_angle: read_u32_be(body, 12),
        compression_indicator: body[16],
        radial_length: read_u16_be(body, 18),
        azimuth_resolution_spacing: body[20],
        radial_status: body[21],
        elevation_number: body[22],
        cut_sector_number: body[23],
        elevation_angle: read_u32_be(body, 24),
        radial_spot_blanking_status: body[28],
        azimuth_indexing_mode: body[29],
        data_block_count: read_u16_be(body, 30),
        volume_pointer: read_u32_be(body, 32),
        elevation_pointer: read_u32_be(body, 36),
        radial_pointer: read_u32_be(body, 40),
        moment_pointers: (
            read_u32_be(body, 44),
            read_u32_be(body, 48),
            read_u32_be(body, 52),
            read_u32_be(body, 56),
            read_u32_be(body, 60),
            read_u32_be(body, 64),
            read_u32_be(body, 68),
        ),
    }
}

/// Decodes the volume data block at offset `at`.
pub(crate) fn decode_volume_block(body: &[u8], at: usize) -> (r: VolumeDataBlock)
    requires
        at + VOLUME_BLOCK_SIZE <= body.len(),
    ensures
        r == spec_volume_block(body@, at as int),
{
    VolumeDataBlock {
        data_block_type: body[at],
        data_name: read_name(body, at + 1),
        lrtup: read_u16_be(body, at + 4),
        major_version_number: body[at + 6],
        minor_version_number: body[at + 7],
        latitude: read_u32_be(body, at + 8),
        longitude: read_u32_be(body, at + 12),
        site_height: read_signed(body, at + 16),
        feedhorn_height: read_u16_be(body, at + 18),
        calibration_constant: read_u32_be(body, at + 20),
        horizontal_shv_tx_power: read_u32_be(body, at + 24),
        vertical_shv_tx_power: read_u32_be(body, at + 28),
        system_differential_reflectivity: read_u32_be(body, at + 32),
        initial_system_differential_phase: read_u32_be(body, at + 36),
        volume_coverage_pattern_number: read_u16_be(body, at + 40),
        processing_status: read_u16_be(body, at + 42),
        zdr_bias_estimate_weighted_mean: read_u16_be(body, at + 44),
    }
}

/// Decodes the elevation data block at offset `at`.
pub(crate) fn decode_elevation_block(body: &[u8], at: usize) -> (r: ElevationDataBlock)
    requires
        at + ELEVATION_BLOCK_SIZE <= body.len(),
    ensures
        r == spec_elevation_block(body@, at as int),
{
    ElevationDataBlock {
        data_block_type: body[at],
        data_name: read_name(body, at + 1),
        lrtup: read_u16_be(body, at + 4),
        atmos: read_signed(body, at + 6),
        calibration_constant: read_u32_be(body, at + 8),
    }
}

/// Decodes the radial data block at offset `at`.
pub(crate) fn decode_radial_block(body: &[u8], at: usize) -> (r: RadialDataBlock)
    requires
        at + RADIAL_BLOCK_SIZE <= body.len(),
    ensures
        r == spec_radial_block(body@, at as int),
{
    RadialDataBlock {
        data_block_type: body[at],
        data_name: read_name(body, at + 1),
        lrtup: read_u16_be(body, at + 4),
        unambiguous_range: read_u16_be(body, at + 6),
        horizontal_channel_noise_level: read_u32_be(body, at + 8),
        vertical_channel_noise_level: read_u32_be(body, at + 12),
        nyquist_velocity: read_u16_be(body, at + 16),
        radial_flags: read_u16_be(body, at + 18),
        horizontal_channel_calibration_constant: read_u32_be(body, at + 20),
        vertical_channel_calibration_constant: read_u32_be(body, at + 24),
    }
}

/// Copies the bytes of `body` from `from` up to `to`.
pub(crate) fn copy_bytes(body: &[u8], from: usize, to: usize) -> (r: Vec<u8>)
    requires
        from <= to <= body.len(),
    ensures
        r@ == body@.subrange(from as int, to as int),
{
    let mut out: Vec<u8> = Vec::new();
    let mut i: usize = from;
    while i < to
        invariant
            from <= i <= to <= body.len(),
            out@ == body@.subrange(from as int, i as int),
        decreases to - i,
    {
        out.push(body[i]);
        i += 1;
        assert(out@ =~= body@.subrange(from as int, i as int));
    }
    out
}

/// Whether a decoded moment is what the bytes say it is.
pub open spec fn moment_agrees(
    r: Result<Option<MomentBlock>, Error>,
    expected: Result<Option<(MomentHeader, Seq<u8>)>, Error>,
) -> bool {
    match expected {
        Err(e) => r == Err::<Option<MomentBlock>, Error>(e),
        Ok(v) => r matches Ok(m) && moment_view(m) == v,
    }
}

/// Decodes the moment block at offset `pointer` of the frame `body`, with
/// as many sample bytes as the block's own header declares.
pub fn decode_moment(body: &[u8], pointer: u32) -> (r: Result<Option<MomentBlock>, Error>)
    ensures
        moment_agrees(r, spec_decode_moment(body@, pointer)),
{
    if pointer == 0 {
        return Ok(None);
    }
    if !fits(body, pointer, MOMENT_HEADER_SIZE) {
        return Err(Error::TruncatedMessage);
    }
    let at: usize = pointer as usize;
    let header = MomentHeader {
        data_block_type: body[at],
        data_name: read_name(body, at + 1),
        gate_count: read_u16_be(body, at + 8),
        first_gate_range: read_u16_be(body, at + 10),
        gate_interval: read_u16_be(body, at + 12),
        tover: read_u16_be(body, at + 14),
        snr_threshold: read_signed(body, at + 16),
        control_flags: body[at + 18],
        data_word_size: body[at + 19],
        scale: read_u32_be(body, at + 20),
        offset: read_u32_be(body, at + 24),
    };
    let start: usize = at + MOMENT_HEADER_SIZE;
    if body.len() - start < header.gate_count as usize {
        return Err(Error::InvalidGateCount);
    }
    let samples = copy_bytes(body, start, start + header.gate_count as usize);
    Ok(Some(MomentBlock { header, samples }))
}

/// Decodes the seven moment blocks that `pointers` name, in wire order.
pub fn decode_moments(body: &[u8], pointers: (u32, u32, u32, u32, u32, u32, u32)) -> (r: Result<
    Moments,
    Error,
>)
    ensures
        match spec_decode_moments(body@, pointers) {
            Err(e) => r == Err::<Moments, Error>(e),
            Ok(v) => r matches Ok(m) && m@ == v,
        },
{
    let reflectivity = match decode_moment(body, pointers.0) {
        Err(e) => { return Err(e); },
        Ok(m) => m,
    };
    let velocity = match decode_moment(body, pointers.1) {
        Err(e) => { return Err(e); },
        Ok(m) => m,
    };
    let spectrum_width = match decode_moment(body, pointers.2) {
        Err(e) => { return Err(e); },
        Ok(m) => m,
    };
    let differential_reflectivity = match decode_moment(body, pointers.3) {
        Err(e) => { return Err(e); },
        Ok(m) => m,
    };
    let differential_phase = match decode_moment(body, pointers.4) {
        Err(e) => { return Err(e); },
        Ok(m) => m,
    };
    let correlation_coefficient = match decode_moment(body, pointers.5) {
        Err(e) => { return Err(e); },
        Ok(m) => m,
    };
    let clutter_filter_power = match decode_moment(body, pointers.6) {
        Err(e) => { return Err(e); },
        Ok(m) => m,
    };
    Ok(
        Moments {
            reflectivity,
            velocity,
            spectrum_width,
            differential_reflectivity,
            differential_phase,
            correlation_coefficient,
            clutter_filter_power,
        },
    )
}

/// Decodes a digital radar data message from its frame: the header block,
/// the three metadata blocks that it must name, and each moment block that
/// it names.
pub fn decode_digital_radar_data(body: &[u8]) -> (r: Result<Message, Error>)
    ensures
        match spec_decode_digital_radar_data(body@) {
            Err(e) => r == Err::<Message, Error>(e),
            Ok(v) => r matches Ok(m) && m@ == v,
        },
{
    if body.len() < DATA_HEADER_SIZE {
        return Err(Error::TruncatedMessage);
    }
    let header = decode_data_header(body);
    if header.volume_pointer == 0 || header.elevation_pointer == 0 || header.radial_pointer == 0 {
        return Err(Error::MissingRequiredBlock);
    }
    if !fits(body, header.volume_pointer, VOLUME_BLOCK_SIZE) || !fits(
        body,
        header.elevation_pointer,
        ELEVATION_BLOCK_SIZE,
    ) || !fits(body, header.radial_pointer, RADIAL_BLOCK_SIZE) {
        return Err(Error::TruncatedMessage);
    }
    let moments = match decode_moments(body, header.moment_pointers) {
        Err(e) => { return Err(e); },
        Ok(m) => m,
    };
    Ok(
        Message {
            header,
            volume: decode_volume_block(body, header.volume_pointer as usize),
            elevation: decode_elevation_block(body, header.elevation_pointer as usize),
            radial: decode_radial_block(body, header.radial_pointer as usize),
            moments,
        },
    )
}

/// A moment that decodes holds exactly as many samples as its header
/// declares, and they are the bytes that follow the header.
pub proof fn lemma_moment_samples(s: Seq<u8>, pointer: u32)
    ensures
        spec_decode_moment(s, pointer) matches Ok(Some((header, samples))) ==> samples.len()
            == header.gate_count && forall|i: int|
            0 <= i < samples.len() ==> samples[i] == s[pointer + MOMENT_HEADER_SIZE + i],
{
}

} // verus!
