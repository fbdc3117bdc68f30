//! Media conversion core: frame-count planning, frame extraction planning
//! and decoding, timeline assembly with bounce mirroring, split/merge
//! progress aggregation, external tool argument construction, MP4 segment
//! export sequencing, thumbnail stream parsing and video metadata checks.
//!
//! Times are held as whole microseconds and fractional settings (speed,
//! quality, crop) as millionths, so every formula here is exact integer math.

pub mod error;
pub mod timing;
pub mod settings;
pub mod frames;
pub mod timeline;
pub mod progress;
pub mod text;
pub mod parse;
pub mod filters;
pub mod extract;
pub mod gif_run;
pub mod encoder;
pub mod mp4;
pub mod thumbnails;
pub mod metadata;
pub mod registry;
pub mod tools;
pub mod state;
pub mod shots;
