//! Metadata extraction for MPEG audio (MP3) byte streams.
//!
//! The crate scans an in-memory buffer for MPEG frame headers and embedded
//! tags (the legacy 128-byte trailer tag and the variable-length extensible
//! tag container), decodes them into plain data structures, and proves that
//! the result equals a mathematical model of the scan.

pub use metadata::{
    frame_of, header_sync_ok, id3_step, parse_of, read_from_slice, read_matches, scan_from,
    scan_result, tag_v1_of, try_frame, unsync_decode, word_at,
};
pub use enums::{resolve_genre_list, ChannelType, Copyright, Emphasis, Error, Genre, Layer, Status, Version, CRC};
pub use types::{AudioTag, Duration, Frame, MP3Metadata, OptionalAudioTags, Url};

mod enums;
pub mod laws;
mod fields;
mod metadata;
mod types;

pub mod utils;
