//! Turns a mint notification into two stored artifacts: an SVG image and a
//! JSON metadata document, both derived from attributes drawn with a seeded
//! generator.

pub mod asset;
pub mod attributes;
pub mod event;
pub mod image;
pub mod job;
pub mod metadata;
pub mod token;
