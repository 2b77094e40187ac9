//! Where the application keeps its files, derived deterministically from
//! the platform's base directories. Discovering those directories and
//! creating them on disk is the caller's I/O.

use vstd::prelude::*;

verus! {

/// The application's file locations.
#[derive(Debug, Clone)]
pub struct AppPaths {
    /// The settings document.
    pub config_file: String,
    /// The persisted window state.
    pub state_file: String,
    /// Where autosave snapshots go.
    pub autosave_dir: String,
    /// Where downloaded model artifacts go.
    pub models_dir: String,
}

impl AppPaths {
    /// Derive every location from the platform base directories: the
    /// state directory falls back to the data directory where the
    /// platform has none.
    pub fn locate(config_dir: &str, data_dir: &str, state_dir: Option<&str>) -> (r: AppPaths)
        ensures
            r.config_file@ == config_dir@ + "/config.toml"@,
            r.state_file@ == (match state_dir {
                Some(s) => s@,
                None => data_dir@,
            }) + "/state.json"@,
            r.autosave_dir@ == (match state_dir {
                Some(s) => s@,
                None => data_dir@,
            }) + "/autosave"@,
            r.models_dir@ == data_dir@ + "/models"@,
    {
        let state_base: &str = match state_dir {
            Some(s) => s,
            None => data_dir,
        };
        let mut config_file = String::from_str(config_dir);
        config_file.append("/config.toml");
        let mut state_file = String::from_str(state_base);
        state_file.append("/state.json");
        let mut autosave_dir = String::from_str(state_base);
        autosave_dir.append("/autosave");
        let mut models_dir = String::from_str(data_dir);
        models_dir.append("/models");
        AppPaths { config_file, state_file, autosave_dir, models_dir }
    }
}

} // verus!
