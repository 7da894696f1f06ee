//! Renders one automation script step, given as an XML fragment, into a
//! single canonical human-readable text line: the step kind is classified
//! from its numeric id, each typed parameter contributes at most one display
//! fragment under a per-label display policy, and the fragments are joined
//! and assembled into the final line.

pub mod classify;
pub mod decode;
pub mod events;
pub mod laws;
pub mod policy;
pub mod render;
pub mod text;

pub use render::from_xml;
