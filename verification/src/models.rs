//! Plain data records exchanged with the surrounding application: the result
//! of a completed test, and the user-editable configuration.
//!
//! Speeds are centi-WPM and percentages centi-percent, as in [`crate::metrics`].

use vstd::prelude::*;

verus! {

/// The record of one completed test, handed to the persistence collaborator.
#[derive(Debug, Clone)]
pub struct TestResult {
    /// Row identifier once stored; fresh results carry none.
    pub id: Option<i64>,
    /// Wall-clock time of completion, in milliseconds since the Unix epoch.
    pub timestamp: i64,
    /// The length-bucket mode the test was run under.
    pub mode: String,
    /// Final speed, in centi-WPM.
    pub wpm: u64,
    /// Raw speed (mistakes included), in centi-WPM.
    pub raw_wpm: u64,
    /// Final accuracy, in hundredths of a percent.
    pub accuracy: u64,
    /// Speed consistency, in hundredths of a percent.
    pub consistency: u64,
    /// Length of the passage, in characters.
    pub quote_length: i64,
    /// Whole seconds the test took.
    pub duration_seconds: i64,
}

/// The user-editable configuration.
#[derive(Debug, Clone)]
pub struct AppConfig {
    pub theme: String,
    pub default_mode: String,
    pub default_time: u64,
}

/// The theme chosen when the configuration does not name one.
pub fn default_theme() -> (r: String)
    ensures
        r@ == "dark"@,
{
    "dark".to_owned()
}

/// The length-bucket mode chosen when the configuration does not name one.
pub fn default_mode() -> (r: String)
    ensures
        r@ == "medium"@,
{
    "medium".to_owned()
}

/// The test time chosen when the configuration does not give one.
pub fn default_time() -> (r: u64)
    ensures
        r == 60,
{
    60
}

impl Default for AppConfig {
    fn default() -> (r: Self)
        ensures
            r.theme@ == "dark"@,
            r.default_mode@ == "medium"@,
            r.default_time == 60,
    {
        Self { theme: default_theme(), default_mode: default_mode(), default_time: default_time() }
    }
}

} // verus!
