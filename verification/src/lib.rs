//! Frozen multi-monitor capture sessions for a screen-region selection tool.
//!
//! A global hotkey or tray action starts a session: the monitors and the
//! on-screen window rectangles are enumerated, every monitor is captured at
//! its native resolution, and the whole snapshot is installed atomically as
//! the process-wide capture set. Overlay windows -- one per monitor -- then
//! read their frozen image and metadata from that set and ask for region
//! crops out of it, never from the live screen. The session orchestrator
//! guards the lifecycle: duplicate start requests supersede the live
//! session, a failed capture leaves the previous set untouched, and the
//! session ends when the last overlay closes.
//!
//! Native windowing, pixel capture and HTTP live in the embedding layer and
//! hand plain values in and out; the PNG and base64 codecs are reached
//! through trusted wrappers around their crates.

pub mod api;
pub mod codec;
pub mod errors;
pub mod geometry;
pub mod pixels;
pub mod session;
pub mod store;
pub mod text;
pub mod settings;
