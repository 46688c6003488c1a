//! A verified model of a Direct3D 12-style frame-rendering protocol.
//!
//! The library captures the decision logic of a minimal render loop —
//! fence-based CPU/GPU synchronization, resource-state barriers, command
//! recording, descriptor-handle addressing, and the strictly ordered
//! begin-frame / end-frame cycle — over plain values.  The native graphics
//! calls themselves (device creation, command submission, present, the OS
//! wait) are performed by the embedding program, which feeds their results
//! back into the state machines defined here.

pub mod barrier;
pub mod constant_buffer;
pub mod dx12error;
pub mod fence;
pub mod frame_targets;
pub mod recorder;
pub mod render_loop;
