//! The completion manager: provider configuration, engine-slot state,
//! readiness classification, and the pure decisions behind engine
//! loading and device enumeration. Loading and inference themselves are
//! the caller's outside work; every choice about them is made here.

use vstd::prelude::*;

use crate::downloader::ModelDownloader;
use crate::strutil::{occurs_at, spec_find_from, spec_u64_dec, str_eq, str_matches_at, u64_to_dec};

verus! {

/// Which completion provider is configured.
#[derive(Debug, Clone, Copy, PartialEq, Eq, Structural)]
pub enum ProviderKind {
    /// A remote OpenAI-compatible endpoint.
    OpenAI,
    /// A remote Gemini endpoint.
    Gemini,
    /// In-process local inference.
    Local,
}

impl Default for ProviderKind {
    /// Local inference is the default provider.
    fn default() -> (r: Self)
        ensures
            r is Local,
    {
        ProviderKind::Local
    }
}

/// The configuration snapshot the manager works from; immutable per
/// operation, replaced wholesale by `update_config`.
#[derive(Debug, Clone)]
pub struct LlmSettings {
    /// The configured provider.
    pub provider: ProviderKind,
    /// The remote endpoint URL, for remote providers.
    pub endpoint: String,
    /// Whether `local_model_path` overrides the default references.
    pub override_model_path: bool,
    /// An explicit model file path, used when the override flag is set.
    pub local_model_path: String,
    /// The preferred compute device id, if the user picked one.
    pub preferred_device: Option<String>,
    /// Force CPU-only inference.
    pub force_cpu_only: bool,
    /// The default model reference for the GPU-class device.
    pub default_gpu_model: String,
    /// The default model reference for the CPU-class device.
    pub default_cpu_model: String,
    /// The general completion token ceiling.
    pub max_completion_tokens: usize,
}

/// The document default model reference for GPU-class devices.
pub fn default_gpu_model() -> (r: String)
    ensures
        r@ == "mradermacher/Luau-Qwen3-4B-FIM-v0.1-i1-GGUF:Luau-Qwen3-4B-FIM-v0.1.i1-Q4_K_M.gguf"@,
{
    String::from_str(
        "mradermacher/Luau-Qwen3-4B-FIM-v0.1-i1-GGUF:Luau-Qwen3-4B-FIM-v0.1.i1-Q4_K_M.gguf",
    )
}

/// The document default model reference for CPU-class devices.
pub fn default_cpu_model() -> (r: String)
    ensures
        r@ == "OleFranz/Qwen3-0.6B-Text-FIM-GGUF"@,
{
    String::from_str("OleFranz/Qwen3-0.6B-Text-FIM-GGUF")
}

/// The documented defaults of the completion configuration: local
/// provider, OpenAI-compatible endpoint preset, no override, the
/// document default model references, and a 256-token ceiling.
pub open spec fn is_default_llm_settings(r: LlmSettings) -> bool {
    &&& r.provider is Local
    &&& r.endpoint@ == "https://api.openai.com/v1"@
    &&& !r.override_model_path
    &&& r.local_model_path@ == Seq::<char>::empty()
    &&& r.preferred_device is None
    &&& !r.force_cpu_only
    &&& r.default_gpu_model@
        == "mradermacher/Luau-Qwen3-4B-FIM-v0.1-i1-GGUF:Luau-Qwen3-4B-FIM-v0.1.i1-Q4_K_M.gguf"@
    &&& r.default_cpu_model@ == "OleFranz/Qwen3-0.6B-Text-FIM-GGUF"@
    &&& r.max_completion_tokens == 256
}

impl Default for LlmSettings {
    /// The documented defaults.
    fn default() -> (r: Self)
        ensures
            is_default_llm_settings(r),
    {
        LlmSettings {
            provider: ProviderKind::Local,
            endpoint: String::from_str("https://api.openai.com/v1"),
            override_model_path: false,
            local_model_path: String::new(),
            preferred_device: None,
            force_cpu_only: false,
            default_gpu_model: default_gpu_model(),
            default_cpu_model: default_cpu_model(),
            max_completion_tokens: 256,
        }
    }
}

/// Whether the configured provider can serve a completion without
/// further setup; a pre-flight classification with no side effects.
#[derive(Debug, Clone, PartialEq)]
pub enum LlmReadiness {
    /// Ready to use.
    Ready,
    /// The local provider needs a model downloaded first.
    NeedsDownload {
        /// The model reference to download.
        model_ref: String,
    },
    /// The remote provider needs an endpoint configured.
    NeedsEndpoint,
    /// The native inference backend failed to initialize.
    MissingLlamaCli,
    /// No provider is configured.
    NotConfigured,
}

/// One enumerated compute device, for display purposes.
#[derive(Debug, Clone)]
pub struct GpuDevice {
    /// The device's index, as text.
    pub id: String,
    /// A human-readable device name.
    pub name: String,
}

/// The default model reference for the active device class: the
/// CPU-class reference when CPU-only is forced, else the GPU-class one.
pub open spec fn spec_default_model_ref(c: LlmSettings) -> Seq<char> {
    if c.force_cpu_only {
        c.default_cpu_model@
    } else {
        c.default_gpu_model@
    }
}

/// Which model file the engine should load.
#[derive(Debug, Clone)]
pub enum ModelChoice {
    /// The explicit override path from the configuration.
    OverridePath(String),
    /// A registry reference still to be resolved and downloaded.
    Reference(String),
}

/// Owns the configuration, the artifact store, and the engine-slot
/// state, and makes every decision of the engine lifecycle. The engine
/// itself is loaded and driven by the caller, which reports slot changes
/// back here.
pub struct LlmManager {
    config: LlmSettings,
    downloader: ModelDownloader,
    backend_available: bool,
    engine_loaded: bool,
}

impl LlmManager {
    /// The current configuration snapshot.
    pub closed spec fn spec_config(&self) -> LlmSettings {
        self.config
    }

    /// Whether the native backend initialized.
    pub closed spec fn spec_backend_available(&self) -> bool {
        self.backend_available
    }

    /// Whether the engine slot holds a loaded model.
    pub closed spec fn spec_engine_loaded(&self) -> bool {
        self.engine_loaded
    }

    /// The artifact store directory.
    pub closed spec fn spec_models_dir(&self) -> Seq<char> {
        self.downloader.dir()
    }

    /// A manager over `models_dir` with an empty engine slot;
    /// `backend_available` reports whether the native backend
    /// initialized, which is fatal for the local provider for the whole
    /// process lifetime when false.
    pub fn new(config: LlmSettings, models_dir: String, backend_available: bool) -> (m: LlmManager)
        ensures
            m.spec_config() == config,
            m.spec_models_dir() == models_dir@,
            m.spec_backend_available() == backend_available,
            !m.spec_engine_loaded(),
    {
        let downloader = ModelDownloader::new(models_dir);
        LlmManager { config, downloader, backend_available, engine_loaded: false }
    }

    /// The current configuration.
    pub fn config(&self) -> (r: &LlmSettings)
        ensures
            *r == self.spec_config(),
    {
        &self.config
    }

    /// Replace the configuration snapshot; takes effect on the next
    /// engine-load or completion decision, and never touches the engine
    /// slot of an in-flight operation.
    pub fn update_config(&mut self, config: LlmSettings)
        ensures
            final(self).spec_config() == config,
            final(self).spec_backend_available() == old(self).spec_backend_available(),
            final(self).spec_engine_loaded() == old(self).spec_engine_loaded(),
            final(self).spec_models_dir() == old(self).spec_models_dir(),
    {
        self.config = config;
    }

    /// A handle on the artifact store, rooted at the same directory.
    pub fn downloader_handle(&self) -> (d: ModelDownloader)
        ensures
            d.dir() == self.spec_models_dir(),
    {
        self.downloader.handle()
    }

    /// Whether local inference is available at all.
    pub fn is_local_available(&self) -> (r: bool)
        ensures
            r == self.spec_backend_available(),
    {
        self.backend_available
    }

    /// Whether an engine-load pass is needed before a completion.
    pub fn needs_engine_load(&self) -> (r: bool)
        ensures
            r == !self.spec_engine_loaded(),
    {
        !self.engine_loaded
    }

    /// Record that the caller loaded a model into the engine slot; only
    /// a successful load is recorded, never a failed one.
    pub fn note_engine_loaded(&mut self)
        ensures
            final(self).spec_engine_loaded(),
            final(self).spec_config() == old(self).spec_config(),
            final(self).spec_backend_available() == old(self).spec_backend_available(),
            final(self).spec_models_dir() == old(self).spec_models_dir(),
    {
        self.engine_loaded = true;
    }

    /// Tear the loaded engine down; the slot is only ever emptied
    /// explicitly, never evicted.
    pub fn unload_model(&mut self)
        ensures
            !final(self).spec_engine_loaded(),
            final(self).spec_config() == old(self).spec_config(),
            final(self).spec_backend_available() == old(self).spec_backend_available(),
            final(self).spec_models_dir() == old(self).spec_models_dir(),
    {
        self.engine_loaded = false;
    }

    /// Which model file the engine should load: the explicit override
    /// path when the override flag is set, a path is given, and the
    /// caller's probe found it present on disk; else the default
    /// reference for the active device class — an absent override file
    /// falls back, it is never loaded unchecked.
    pub fn model_choice(&self, override_exists: bool) -> (r: ModelChoice)
        ensures
            ({
                let c = self.spec_config();
                if c.override_model_path && c.local_model_path@.len() > 0 && override_exists {
                    r matches ModelChoice::OverridePath(p) && p@ == c.local_model_path@
                } else {
                    r matches ModelChoice::Reference(m) && m@ == spec_default_model_ref(c)
                }
            }),
    {
        if self.config.override_model_path && self.config.local_model_path.as_str().unicode_len()
            > 0 && override_exists {
            ModelChoice::OverridePath(self.config.local_model_path.clone())
        } else if self.config.force_cpu_only {
            ModelChoice::Reference(self.config.default_cpu_model.clone())
        } else {
            ModelChoice::Reference(self.config.default_gpu_model.clone())
        }
    }

    /// The device-class default reference the configuration falls back
    /// to when no usable override path is set.
    pub fn default_model_ref(&self) -> (r: String)
        ensures
            r@ == spec_default_model_ref(self.spec_config()),
    {
        if self.config.force_cpu_only {
            self.config.default_cpu_model.clone()
        } else {
            self.config.default_gpu_model.clone()
        }
    }

    /// How many compute layers to offload: none when CPU-only is forced,
    /// else as many as the backend will allow.
    pub fn planned_gpu_layers(&self) -> (r: u32)
        ensures
            self.spec_config().force_cpu_only ==> r == 0,
            !self.spec_config().force_cpu_only ==> r == 999,
    {
        if self.config.force_cpu_only {
            0
        } else {
            999
        }
    }

    /// Classify readiness from the configuration and two pre-flight
    /// probes the caller made: whether the override path exists on disk,
    /// and whether the device-class default reference is verified-present
    /// in the store. Local is ready when either probe holds; an absent
    /// override file falls back to the default reference, so what is
    /// asked for in `NeedsDownload` is always that reference. No side
    /// effects.
    pub fn check_readiness(&self, override_exists: bool, model_downloaded: bool) -> (r:
        LlmReadiness)
        ensures
            ({
                let c = self.spec_config();
                match c.provider {
                    ProviderKind::Local => {
                        if !self.spec_backend_available() {
                            r is MissingLlamaCli
                        } else if (c.override_model_path && c.local_model_path@.len() > 0
                            && override_exists) || model_downloaded {
                            r is Ready
                        } else {
                            r matches LlmReadiness::NeedsDownload { model_ref }
                                && model_ref@ == spec_default_model_ref(c)
                        }
                    },
                    _ => {
                        if c.endpoint@.len() == 0 {
                            r is NeedsEndpoint
                        } else {
                            r is Ready
                        }
                    },
                }
            }),
    {
        match self.config.provider {
            ProviderKind::Local => {
                if !self.backend_available {
                    return LlmReadiness::MissingLlamaCli;
                }
                let override_usable = self.config.override_model_path
                    && self.config.local_model_path.as_str().unicode_len() > 0 && override_exists;
                if override_usable || model_downloaded {
                    LlmReadiness::Ready
                } else if self.config.force_cpu_only {
                    LlmReadiness::NeedsDownload { model_ref: self.config.default_cpu_model.clone() }
                } else {
                    LlmReadiness::NeedsDownload { model_ref: self.config.default_gpu_model.clone() }
                }
            },
            _ => {
                if self.config.endpoint.as_str().unicode_len() == 0 {
                    LlmReadiness::NeedsEndpoint
                } else {
                    LlmReadiness::Ready
                }
            },
        }
    }
}

/// Whether a device-tree entry names a card proper: its name starts with
/// `card` and has no `-`, which excludes connector entries.
pub fn is_card_entry(name: &str) -> (r: bool)
    ensures
        r == (occurs_at(name@, "card"@, 0) && spec_find_from(name@, '-', 0) is None),
{
    let n: usize = name.unicode_len();
    let m: usize = "card".unicode_len();
    let starts = if m <= n {
        str_matches_at(name, "card", 0)
    } else {
        false
    };
    starts && crate::strutil::find_char(name, '-').is_none()
}

/// The display name for an enumerated device: a vendor-specific name
/// when the PCI vendor id is a known one, else a generic name carrying
/// the card index.
pub fn gpu_device_name(vendor_id: Option<&str>, card_index: u64) -> (r: String)
    ensures
        ({
            match vendor_id {
                Some(v) => {
                    if v@ == "0x1002"@ {
                        r@ == "AMD GPU"@
                    } else if v@ == "0x10de"@ {
                        r@ == "NVIDIA GPU"@
                    } else if v@ == "0x8086"@ {
                        r@ == "Intel GPU"@
                    } else {
                        r@ == "GPU "@ + spec_u64_dec(card_index)
                    }
                },
                None => r@ == "GPU "@ + spec_u64_dec(card_index),
            }
        }),
{
    match vendor_id {
        Some(v) => {
            if str_eq(v, "0x1002") {
                String::from_str("AMD GPU")
            } else if str_eq(v, "0x10de") {
                String::from_str("NVIDIA GPU")
            } else if str_eq(v, "0x8086") {
                String::from_str("Intel GPU")
            } else {
                let mut r = String::from_str("GPU ");
                let digits = u64_to_dec(card_index);
                r.append(digits.as_str());
                r
            }
        },
        None => {
            let mut r = String::from_str("GPU ");
            let digits = u64_to_dec(card_index);
            r.append(digits.as_str());
            r
        },
    }
}

} // verus!
