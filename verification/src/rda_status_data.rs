//! The RDA status message: scalar status words and one word of bit flags.

use vstd::prelude::*;
use crate::bytes::{read_u16_be, spec_u16_be};
use crate::result::Error;

verus! {

/// Number of bytes of a status message that are decoded: fifteen halfwords.
pub const STATUS_SIZE: usize = 30;

/// The flags for the RDA system's scan and data status, as one raw word.
#[derive(Clone, Copy, Debug, PartialEq, Eq, Structural)]
pub struct ScanDataFlags(pub u16);

/// Whether exactly one of the two AVSET bits of `raw` is set.
pub open spec fn spec_avset_consistent(raw: u16) -> bool {
    (raw & 0b0001 != 0) != (raw & 0b0010 != 0)
}

/// What the AVSET pair of `raw` says: enabled or not, or that the pair
/// contradicts itself.
pub open spec fn spec_avset_enabled(raw: u16) -> Result<bool, Error> {
    if spec_avset_consistent(raw) {
        Ok(raw & 0b0001 != 0)
    } else {
        Err(Error::InconsistentFlagState)
    }
}

impl ScanDataFlags {
    /// Wraps a raw flag word.
    pub fn new(value: u16) -> (r: Self)
        ensures
            r.0 == value,
    {
        Self(value)
    }

    /// Whether AVSET is enabled. The word holds one bit for "enabled" and one
    /// for "disabled"; where both or neither are set the answer is an error.
    pub fn avset_enabled(&self) -> (r: Result<bool, Error>)
        ensures
            r == spec_avset_enabled(self.0),
    {
        let enabled_flag: bool = self.0 & 0b0001 != 0;
        let disabled_flag: bool = self.0 & 0b0010 != 0;
        if enabled_flag != disabled_flag {
            Ok(enabled_flag)
        } else {
            Err(Error::InconsistentFlagState)
        }
    }

    /// Whether EBC is enabled.
    pub fn ebc_enabled(&self) -> (r: bool)
        ensures
            r == (self.0 & 0b0100 != 0),
    {
        self.0 & 0b0100 != 0
    }

    /// Whether RDA log data is enabled.
    pub fn rda_log_data_enabled(&self) -> (r: bool)
        ensures
            r == (self.0 & 0b1000 != 0),
    {
        self.0 & 0b1000 != 0
    }

    /// Whether time series data recording is enabled.
    pub fn time_series_data_recording_enabled(&self) -> (r: bool)
        ensures
            r == (self.0 & 0b10000 != 0),
    {
        self.0 & 0b10000 != 0
    }
}

/// A decoded RDA status message.
#[derive(Clone, Copy, Debug, PartialEq, Eq, Structural)]
pub struct Message {
    pub rda_status: u16,
    pub operability_status: u16,
    pub control_status: u16,
    pub auxiliary_power_generator_state: u16,
    pub average_transmitter_power: u16,
    /// Two's-complement word, kept raw.
    pub horizontal_reflectivity_calibration_correction: u16,
    pub data_transmission_enabled: u16,
    /// Two's-complement word, kept raw.
    pub volume_coverage_pattern: u16,
    pub rda_control_authorization: u16,
    pub rda_build_number: u16,
    pub operational_mode: u16,
    pub super_resolution_status: u16,
    pub clutter_mitigation_decision_status: u16,
    pub scan_data_flags: ScanDataFlags,
    pub rda_alarm_summary: u16,
}

/// The status message whose first byte is `s[0]`.
pub open spec fn spec_status_fields(s: Seq<u8>) -> Message {
    Message {
        rda_status: spec_u16_be(s, 0),
        operability_status: spec_u16_be(s, 2),
        control_status: spec_u16_be(s, 4),
        auxiliary_power_generator_state: spec_u16_be(s, 6),
        average_transmitter_power: spec_u16_be(s, 8),
        horizontal_reflectivity_calibration_correction: spec_u16_be(s, 10),
        data_transmission_enabled: spec_u16_be(s, 12),
        volume_coverage_pattern: spec_u16_be(s, 14),
        rda_control_authorization: spec_u16_be(s, 16),
        rda_build_number: spec_u16_be(s, 18),
        operational_mode: spec_u16_be(s, 20),
        super_resolution_status: spec_u16_be(s, 22),
        clutter_mitigation_decision_status: spec_u16_be(s, 24),
        scan_data_flags: ScanDataFlags(spec_u16_be(s, 26)),
        rda_alarm_summary: spec_u16_be(s, 28),
    }
}

/// What decoding a status message from `s` gives: `TruncatedMessage` where
/// `s` is shorter than `STATUS_SIZE`, `InconsistentFlagState` where the AVSET
/// pair contradicts itself, else the fields.
pub open spec fn spec_decode_rda_status(s: Seq<u8>) -> Result<Message, Error> {
    if s.len() < STATUS_SIZE {
        Err(Error::TruncatedMessage)
    } else if !spec_avset_consistent(spec_u16_be(s, 26)) {
        Err(Error::InconsistentFlagState)
    } else {
        Ok(spec_status_fields(s))
    }
}

/// Decodes an RDA status message from the start of `body`.
pub fn decode_rda_status_message(body: &[u8]) -> (r: Result<Message, Error>)
    ensures
        r == spec_decode_rda_status(body@),
{
    if body.len() < STATUS_SIZE {
        return Err(Error::TruncatedMessage);
    }
    let flags = ScanDataFlags::new(read_u16_be(body, 26));
    match flags.avset_enabled() {
        Err(e) => {
            return Err(e);
        },
        Ok(_) => {},
    }
    Ok(
        Message {
            rda_status: read_u16_be(body, 0),
            operability_status: read_u16_be(body, 2),
            control_status: read_u16_be(body, 4),
            auxiliary_power_generator_state: read_u16_be(body, 6),
            average_transmitter_power: read_u16_be(body, 8),
            horizontal_reflectivity_calibration_correction: read_u16_be(body, 10),
            data_transmission_enabled: read_u16_be(body, 12),
            volume_coverage_pattern: read_u16_be(body, 14),
            rda_control_authorization: read_u16_be(body, 16),
            rda_build_number: read_u16_be(body, 18),
            operational_mode: read_u16_be(body, 20),
            super_resolution_status: read_u16_be(body, 22),
            clutter_mitigation_decision_status: read_u16_be(body, 24),
            scan_data_flags: flags,
            rda_alarm_summary: read_u16_be(body, 28),
        },
    )
}

/// Every status message that decodes has an AVSET pair that answers: the
/// accessor on its flags never reports a contradiction.
pub proof fn lemma_decoded_status_avset_exclusive(s: Seq<u8>)
    ensures
        spec_decode_rda_status(s) matches Ok(m) ==> spec_avset_enabled(m.scan_data_flags.0) is Ok,
        s.len() >= STATUS_SIZE && !spec_avset_consistent(spec_u16_be(s, 26))
            ==> spec_decode_rda_status(s) == Err::<Message, Error>(Error::InconsistentFlagState),
{
}

} // verus!
