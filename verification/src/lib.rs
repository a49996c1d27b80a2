//! A realtime audio effect chain: a sample queue between capture and
//! playback, an ordered graph of effect nodes that runs in place over each
//! block, and lock-free inboxes through which a control thread edits the
//! graph and its parameters.
//!
//! Samples travel through the library as bit patterns. The arithmetic on
//! them is the caller's: it hands the library three functions, the
//! `Kernels`, and every contract here says which of them was applied to
//! what.
pub mod audio;
pub mod device;
pub mod effect;
pub mod graph;
pub mod inbox;
pub mod ring;
