//! Palette transfer: remaps colors onto the convex region spanned by a
//! small palette in RGB space.
//!
//! The library holds the decisions of the transfer: decoding palette
//! colors, rejecting palettes that span no volume, turning the answer of
//! a nearest-point query into a color, and the memoized, order-preserving
//! mapping of a pixel buffer.

pub mod color;
pub mod hex;
pub mod hull;
pub mod error;
pub mod space;
pub mod resolve;
pub mod cache;
pub mod progress;
