//! Core of a multi-camera live-view system: per-camera decode workers driven
//! by a small state machine, a control protocol that pauses and resumes each
//! worker, a shared frame channel drained by one display consumer, a stream
//! supervisor with an idle-power policy, and an event monitor that turns
//! alarm reports into wake signals.
//!
//! Everything that decides — state machines, selection, the idle policy, the
//! snapshot codec — lives here and is verified.  Network input, decoding,
//! file output and the user interface stay outside and talk to this crate
//! through plain values.

pub mod channels;
pub mod config;
pub mod consumer;
pub mod frame;
pub mod gallery;
pub mod monitor;
pub mod snapshot;
pub mod supervisor;
pub mod worker;

use vstd::prelude::*;

verus! {

/// Width in pixels of every frame handed to the display consumer.
pub const FRAME_WIDTH: usize = 1280;

/// Height in pixels of every frame handed to the display consumer.
pub const FRAME_HEIGHT: usize = 720;

/// Bytes per pixel of the packed output format (8-bit RGB).
pub const BYTES_PER_PIXEL: usize = 3;

/// Bytes in one tightly packed row of the output format.
pub const ROW_BYTES: usize = FRAME_WIDTH * BYTES_PER_PIXEL;

/// Bytes in one whole frame of the output format.
pub const FRAME_BYTES: usize = FRAME_WIDTH * FRAME_HEIGHT * BYTES_PER_PIXEL;

/// Seconds without an activity or wake event before every stream is paused.
pub const IDLE_THRESHOLD_S: u64 = 5;

/// Seconds a worker waits before reopening a failed or ended connection.
pub const RECONNECT_DELAY_S: u64 = 5;

/// Milliseconds between two polls of the alarm source.
pub const MONITOR_POLL_DELAY_MS: u64 = 300;

/// Milliseconds the event monitor backs off after a connection failure.
pub const MONITOR_BACKOFF_MS: u64 = 5000;

/// Capacity of the shared frame channel; a full channel drops frames.
pub const FRAME_CHANNEL_CAPACITY: usize = 4;

/// How many queued control values one poll coalesces at most.
pub const CONTROL_COALESCE_LIMIT: usize = 32;

} // verus!
