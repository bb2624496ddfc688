//! Clippa: the verified core of a desktop YouTube clipper.
pub mod text;
pub mod video_id;
pub mod thumbnail;
pub mod outside;
pub mod metadata;
pub mod clip;
pub mod transcription;
pub mod paths;
pub mod download;
