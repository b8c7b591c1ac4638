//! The kinds of failure the dashboard knows.

use vstd::prelude::*;

verus! {

/// Why the dashboard gave up. Every kind is fatal: nothing is retried.
#[derive(Clone, Copy, Debug, PartialEq, Eq, Structural)]
pub enum DashboardError {
    /// The geocoding provider knows no place of that name.
    LocationNotFound,
    /// A provider answered with something that could not be read.
    ResponseParseError,
    /// No credentials for the weather provider were supplied.
    MissingCredentials,
    /// A sampled forecast point carries no icon code.
    MissingIconError,
    /// The terminal refused the switch to raw mode.
    TerminalInitError,
    /// A frame could not be drawn.
    DrawError,
    /// Waiting for, or reading, terminal input failed.
    InputError,
}

/// The diagnostic text of each kind of failure.
pub open spec fn message_of(error: DashboardError) -> Seq<char> {
    match error {
        DashboardError::LocationNotFound => "Location not found"@,
        DashboardError::ResponseParseError => "Provider response could not be read"@,
        DashboardError::MissingCredentials => "Weather provider credentials are missing"@,
        DashboardError::MissingIconError => "Icon not found"@,
        DashboardError::TerminalInitError => "Terminal does not support raw mode"@,
        DashboardError::DrawError => "Frame could not be drawn"@,
        DashboardError::InputError => "Terminal input could not be read"@,
    }
}

impl DashboardError {
    /// The one-line diagnostic shown to the user for this failure.
    pub fn message(&self) -> (text: &'static str)
        ensures
            text@ == message_of(*self),
    {
        match self {
            DashboardError::LocationNotFound => "Location not found",
            DashboardError::ResponseParseError => "Provider response could not be read",
            DashboardError::MissingCredentials => "Weather provider credentials are missing",
            DashboardError::MissingIconError => "Icon not found",
            DashboardError::TerminalInitError => "Terminal does not support raw mode",
            DashboardError::DrawError => "Frame could not be drawn",
            DashboardError::InputError => "Terminal input could not be read",
        }
    }
}

} // verus!
