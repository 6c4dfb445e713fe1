//! The error taxonomy of the collector. Only two variants are produced by the
//! verified core itself: `InvalidUrl` at construction and `Parse` during a
//! cycle. The remaining variants classify failures that the surrounding
//! process meets at its edges (reading the configuration, writing the capture
//! file, querying the clock) so that every fatal condition has one stable
//! shape.

use vstd::prelude::*;
use vstd::string::StringExecFns;

verus! {

/// A fatal condition. Transport failures are deliberately absent: they are
/// isolated per target per cycle and never surface as an `Error`.
#[derive(Debug)]
pub enum Error {
    /// A target URL in the configuration is not a well-formed absolute URL.
    InvalidUrl { index: usize },
    /// A scrape response completed but its body is not valid metric text.
    Parse { target_index: usize },
    /// The configuration file could not be read or deserialized.
    Config,
    /// The capture file could not be written or flushed.
    Io,
    /// The system clock reported a time before the epoch.
    Time,
}

impl Error {
    /// A short human-readable name of the failing stage, for the diagnostic
    /// printed when the process terminates.
    pub fn describe(&self) -> (s: String)
        ensures
            s@ == match *self {
                Error::InvalidUrl { .. } => "target URL is not a well-formed absolute URL"@,
                Error::Parse { .. } => "response body is not valid metric text"@,
                Error::Config => "could not load the configuration"@,
                Error::Io => "could not write the capture file"@,
                Error::Time => "system clock reports a time before the epoch"@,
            },
    {
        match *self {
            Error::InvalidUrl { .. } => String::from_str(
                "target URL is not a well-formed absolute URL",
            ),
            Error::Parse { .. } => String::from_str("response body is not valid metric text"),
            Error::Config => String::from_str("could not load the configuration"),
            Error::Io => String::from_str("could not write the capture file"),
            Error::Time => String::from_str("system clock reports a time before the epoch"),
        }
    }
}

} // verus!
