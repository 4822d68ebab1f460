//! Tile-based layer model for a two-stage renderer.
//!
//! A compositing stage owns a tree of [`layers::Layer`] nodes and asks a
//! painting stage for tiles by handing it [`buffers::BufferRequest`] values.
//! Painted tiles come back as [`buffers::LayerBuffer`] values, each of which
//! owns one native surface. Every request and every buffer carries the
//! [`content_age::ContentAge`] of the layer at the moment the request was
//! issued, so that a tile painted for an earlier state of the layer is
//! recognised after delivery.
//!
//! All quantities are plain values: device pixels are `usize`, and
//! single-precision quantities travel as their bit patterns
//! ([`geometry::Scalar`]).

pub mod content_age;
pub mod geometry;
pub mod surface;
pub mod buffers;
pub mod layers;
