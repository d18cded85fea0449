//! Core logic of a pair of GPU rendering demos: a text-effect state machine,
//! CPU-side composition of rasterized glyphs into an RGBA texture, the
//! pre-validation that keeps the font parser's name decoding in bounds, and
//! the small decision rules (device ranking, composite-alpha selection,
//! keyboard handling) that the render loops follow. The GPU and window
//! plumbing itself lives outside this library.

pub mod device;
pub mod effect;
pub mod font;
pub mod namecheck;
pub mod texture;
pub mod ui;
