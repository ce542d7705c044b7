//! The frame-execution core of an immediate-mode overlay: the order of
//! window, context and surface creation; the life of the GPU resource
//! pipeline with its guaranteed release of every object; the per-event frame
//! loop; the surface size and viewport; the frame clock; and the single-slot
//! hand-off of the one fatal error of a run.
//!
//! Each part is a state machine that decides and records, and an executor
//! around it performs the platform and GPU operations it asks for.
pub mod clock;
pub mod error;
pub mod fatal;
pub mod pipeline;
pub mod scheduler;
pub mod shaders;
pub mod startup;
pub mod surface;
