//! Detection of AprilTags: the configuration of a decoder and the decoding pipeline.

pub mod config;
pub mod decoder;
pub mod errors;
pub mod family;
pub mod image;
pub mod reuse;
pub mod stages;
pub mod union_find;

pub use config::DecodeTagsConfig;
pub use decoder::AprilTagDecoder;
pub use errors::AprilTagError;
pub use family::{TagFamily, TagFamilyKind};
pub use image::{Image, ImageSize, Pixel};
pub use stages::Stages;
