//! The application's persisted settings. Reading and writing the
//! settings file is the caller's I/O; the shape and defaults live here.

use vstd::prelude::*;

use crate::manager::{is_default_llm_settings, LlmSettings};

verus! {

/// The persisted settings document.
#[derive(Debug, Clone)]
pub struct Settings {
    /// Seconds between autosave passes.
    pub autosave_interval_secs: u64,
    /// Recently opened files, most recent first.
    pub recent_files: Vec<String>,
    /// Autosave only while the editor is idle.
    pub autosave_idle_only: bool,
    /// The completion subsystem's configuration.
    pub llm: LlmSettings,
}

impl Default for Settings {
    /// One autosave pass a minute, no recent files, autosave regardless
    /// of idleness, and the default completion configuration.
    fn default() -> (r: Self)
        ensures
            r.autosave_interval_secs == 60,
            r.recent_files@.len() == 0,
            !r.autosave_idle_only,
            is_default_llm_settings(r.llm),
    {
        Settings {
            autosave_interval_secs: 60,
            recent_files: Vec::new(),
            autosave_idle_only: false,
            llm: <LlmSettings as Default>::default(),
        }
    }
}

} // verus!
