//! Container layout for a document-typesetting engine.
//!
//! This crate turns a content node (a box or a block, each wrapping an
//! arbitrary sub-tree) into concrete, positioned, decorated drawing output
//! within a region of available space. It covers auto/relative/fractional
//! sizing, cascading style resolution with two combination modes (resolve and
//! fold), region-based layout that may span several regions, and post-layout
//! decoration (padding, fill, stroke, baseline alignment).
//!
//! All lengths are integers in abstract layout units; ratios are integers in
//! permille (one thousandth) of the base they are measured against. Length
//! arithmetic saturates at the representable range, and the exact laws in
//! `laws` hold whenever the mathematical value is representable.

pub mod geom;
pub mod sizing;
pub mod styles;
pub mod frame;
pub mod region;
pub mod layout;
pub mod laws;
