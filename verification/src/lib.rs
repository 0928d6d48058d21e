//! Stereoscopic rendering front-end for head-mounted displays.
//!
//! The crate has two halves. The `draw` half turns meshes into GPU draw
//! commands under per-eye transforms: a generic `Painter` owns one drawing
//! style's configuration together with a cache of compiled pipelines keyed
//! by primitive topology, and records the commands a frame needs into an
//! `Encoder`. The `vr` half snapshots one frame of headset state — pose,
//! per-eye view and projection, controllers, lifecycle flags — into an
//! immutable `VrMoment`, and tracks per-controller input across frames.
//!
//! Scalar device data (poses, matrices, axis samples) is carried as raw
//! IEEE-754 bit patterns in `u32`/`u64` words. The crate never does
//! floating-point arithmetic itself: whatever a frame needs computed from
//! those scalars (matrix inversion, pose composition) is handed in by the
//! device-facing caller as further bit-pattern words, and every decision
//! this crate makes about them is exact and verified.

pub mod draw;
pub mod unishade;
pub mod vr;
