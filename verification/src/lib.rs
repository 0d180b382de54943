//! Frame acquisition and presentation pipeline for a live camera view.
//!
//! The crate holds the rules of the pipeline: how capture modes are
//! enumerated, which operations a capture device accepts in which state, how
//! a single pending frame travels from the capture side to the render side,
//! and what the render side does on each tick. Threads, windows and GPU
//! calls belong to the program built around it.
//!
//! Cameras are reached through `nokhwa`. Which capture backends exist is
//! decided by the features `nokhwa` is built with; built with none, every
//! device is reported unavailable.

mod backend;
pub mod device;
pub mod error;
pub mod format;
pub mod frame_grabber;
pub mod modes;
pub mod presentation;
pub mod transport;
pub mod video;
