//! User settings carried between the application shell and the monitor:
//! the target device, the drift threshold, and presentation choices.
//! Persisting them to disk is the shell's business.

use vstd::prelude::*;

verus! {

/// The persisted user settings: the target device identifier in textual
/// form, the tolerated signal weakening in dBm, and the UI theme and
/// language.
#[derive(Debug, Clone)]
pub struct Settings {
    pub target_uuid: String,
    pub rssi_delta_max: i16,
    pub theme: String,
    pub language: String,
}

impl Settings {
    /// Bundles the given values into a settings record.
    pub fn new(target_uuid: String, rssi_delta_max: i16, theme: String, language: String) -> (s:
        Self)
        ensures
            s.target_uuid == target_uuid,
            s.rssi_delta_max == rssi_delta_max,
            s.theme == theme,
            s.language == language,
    {
        Settings { target_uuid, rssi_delta_max, theme, language }
    }
}

} // verus!
