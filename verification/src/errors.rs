//! The error taxonomy of the capture pipeline.
//!
//! Each failure class is a distinct variant so that callers can tell a
//! user-actionable condition (a denied screen-recording permission) from an
//! environment problem (no monitor at all) or from bad data (a malformed
//! stored image, an out-of-range crop rectangle, a stale monitor index).

use crate::text::{decimal_digits, u64_to_string};
use vstd::prelude::*;

verus! {

#[derive(Clone, Copy, Debug, PartialEq, Eq, Structural)]
pub enum Error {
    /// Environment misconfiguration: no monitor was found.
    Configuration,
    /// The OS denied pixel capture for the given monitor.
    Permission { monitor: usize },
    /// A stale native window kept an overlay from being created, even after
    /// the one documented retry.
    TransientWindowing,
    /// Stored image bytes (base64 or PNG payload) could not be decoded.
    Decode,
    /// The crop rectangle exceeds the source image, or is empty.
    Bounds,
    /// No frozen image exists for the given monitor index.
    NotFound { monitor: usize },
}

/// The human-readable message for each error variant, carrying the monitor
/// index where one is relevant.
pub open spec fn message_of(e: Error) -> Seq<char> {
    match e {
        Error::Configuration => "No monitors found"@,
        Error::Permission { monitor } => "Capture permission denied for monitor "@ + decimal_digits(
            monitor as nat,
        ),
        Error::TransientWindowing => "Overlay window could not be created"@,
        Error::Decode => "Failed to decode stored image"@,
        Error::Bounds => "Crop rectangle outside source image"@,
        Error::NotFound { monitor } => "No frozen screenshot for monitor "@ + decimal_digits(
            monitor as nat,
        ),
    }
}

impl Error {
    /// A single human-readable line describing the failure, as surfaced to
    /// the UI layer.
    pub fn message(&self) -> (r: String)
        ensures
            r@ == message_of(*self),
    {
        match *self {
            Error::Configuration => "No monitors found".to_owned(),
            Error::Permission { monitor } => {
                let prefix: String = "Capture permission denied for monitor ".to_owned();
                prefix.concat(u64_to_string(monitor as u64).as_str())
            },
            Error::TransientWindowing => "Overlay window could not be created".to_owned(),
            Error::Decode => "Failed to decode stored image".to_owned(),
            Error::Bounds => "Crop rectangle outside source image".to_owned(),
            Error::NotFound { monitor } => {
                let prefix: String = "No frozen screenshot for monitor ".to_owned();
                prefix.concat(u64_to_string(monitor as u64).as_str())
            },
        }
    }
}

} // verus!
