//! Orchestration core of a slime-mold style particle simulation that runs on
//! the GPU: the preset store, the resource layout, the ping-pong buffer pool
//! and the per-frame sequencing of the four stages. Nothing in this crate
//! touches a device; it decides what is bound, uploaded and dispatched, and
//! the embedding program carries those decisions out.

pub mod adapter;
pub mod frame;
pub mod layout;
pub mod params;
pub mod pool;
pub mod surface;
pub mod trail;
pub mod uniform;
