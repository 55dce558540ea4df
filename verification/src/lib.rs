//! Decoder for NEXRAD WSR-88D Level II (Archive II) radar telemetry.
//!
//! The crate splits a volume-scan byte stream into compressed records,
//! decodes the message frames inside each decompressed record, and folds the
//! decoded radials into sweeps and scans. Every function carries a contract
//! over the input bytes.

pub mod bytes;
pub mod result;
pub mod message_header;
pub mod rda_status_data;
pub mod clutter_filter_map;
pub mod digital_radar_data;
pub mod reader;
pub mod messages;
pub mod decompress;
pub mod data;
pub mod chunk;
pub mod download;
