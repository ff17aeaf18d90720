//! Verified core of the Vivi media viewer: terminal geometry, media routing, codec
//! configuration normalization, timestamp arithmetic and the playback schedulers that decide
//! when encoded media is submitted to a Vivid presenter.

pub mod terminal_geometry;
pub mod bytes;
pub mod error;
pub mod extradata;
pub mod text;
pub mod colorimetry;
pub mod timing;
pub mod stream_info;
pub mod playback;
pub mod audio_stream;
pub mod routing;
pub mod config;
pub mod image_plan;
pub mod audio_output;
