//! Frame-rendering core of an interactive graphical demo host.
//!
//! The crate owns the per-frame lifecycle of a rendering pipeline: it
//! translates raw platform input events into a semantic action stream,
//! keeps a name-keyed cache of decoded images for pipeline bootstrap,
//! and drives a render loop that advances pipeline state each frame
//! while remaining robust to resource failures mid-frame.

pub mod assets;
pub mod driver;
pub mod input;
pub mod pipeline;
pub mod render;
