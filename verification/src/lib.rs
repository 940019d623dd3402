//! Interactive screen-region selection engine.
//!
//! The crate implements the logic of an on-screen region picker for
//! compositor-based desktops: the user drags (or clicks a detected window)
//! to choose a rectangle, which is then reported as coordinates or handed
//! to a capture pipeline.  The pieces here are the geometry primitives, the
//! drag/hover selection state machine, the window-snapping queries over a
//! cached window list, the per-monitor redraw scheduler, and the decision
//! rules of the cooperative main loop.  Display-protocol plumbing, drawing,
//! and OCR are collaborators that live outside this crate.

pub mod capture;
pub mod config;
pub mod geometry;
pub mod scheduler;
pub mod selection;
pub mod session;
pub mod windows;
