//! A minimal real-time rendering demo, verified.
//!
//! The library models the GPU context lifecycle and the frame-render state
//! machine of a single-pipeline triangle renderer: adapter/device
//! negotiation, surface configuration and reconfiguration, pipeline
//! construction, and the per-frame acquire/encode/submit/present sequence.
//! The windowing system and the GPU driver are external collaborators; the
//! surrounding binary pulls events from the window system, feeds them to
//! [`controller::AppController`], and carries out the actions it returns.

pub mod controller;
pub mod frame;
pub mod graphics;
pub mod pipeline;
pub mod surface;
