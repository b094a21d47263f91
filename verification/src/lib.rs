//! A minimal instanced-rectangle renderer, split into the decisions (this
//! library) and the device work (the program around it).
//!
//! Everything here works on plain values: buffer contents as 32-bit words and
//! bytes, pipeline and swap-surface settings as records, the frame as a list
//! of commands, the event loop as a state machine. The program that owns the
//! window and the GPU device turns these values into device calls.

pub mod context;
pub mod error;
pub mod event_loop;
pub mod float_bits;
pub mod frame;
pub mod geometry;
pub mod instance;
pub mod layout;
pub mod memory;
pub mod pipeline;
pub mod shader;
pub mod surface;
pub mod uniforms;
