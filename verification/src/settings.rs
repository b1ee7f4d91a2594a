//! User-facing configuration and top-level screen state.

use vstd::prelude::*;

verus! {

/// Which screen the application shell is currently showing.
pub enum AppState {
    App,
    Settings,
    Warning,
    Test,
}

impl Default for AppState {
    /// The application starts on the main screen.
    fn default() -> (r: Self)
        ensures
            r is App,
    {
        AppState::App
    }
}

/// Persisted user settings.
pub struct SettingsState {
    /// Cap on the number of search results requested, expected in 0..=25.
    pub max_results: i8,
    /// True until the first frame has initialised fonts and paths.
    pub first_run: bool,
    /// Directory downloads are written into.
    pub download_path: String,
    /// The user's API credential; empty means "not configured".
    pub personal_yt_api: String,
}

impl SettingsState {
    /// Fresh settings: a result cap of ten, no paths, no credential.
    pub fn default() -> (r: Self)
        ensures
            r.max_results == 10,
            r.first_run,
            r.download_path@ == Seq::<char>::empty(),
            r.personal_yt_api@ == Seq::<char>::empty(),
    {
        SettingsState {
            max_results: 10,
            first_run: true,
            download_path: String::new(),
            personal_yt_api: String::new(),
        }
    }
}

} // verus!
