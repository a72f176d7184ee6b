//! A verified core for a media-gallery service: a live index of tracked
//! files, the event logic that keeps it synchronized with filesystem
//! notifications, and the thumbnail-cache path derivation.

pub mod config;
pub mod errors;
pub mod gallery;
pub mod index;
pub mod lifecycle;
pub mod pathutil;
pub mod reactor;
pub mod scan;
pub mod thumbs;

pub use pathutil::thumbnail_format_ext;
