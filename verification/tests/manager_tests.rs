use ghostpad_llm::manager::{
    default_cpu_model, default_gpu_model, gpu_device_name, is_card_entry, LlmManager,
    LlmReadiness, LlmSettings, ModelChoice, ProviderKind,
};
use ghostpad_llm::paths::AppPaths;
use ghostpad_llm::settings::Settings;
use ghostpad_llm::state_store::WindowState;

fn local_settings() -> LlmSettings {
    LlmSettings::default()
}

#[test]
fn test_llm_settings_defaults() {
    let s = LlmSettings::default();
    assert_eq!(s.provider, ProviderKind::Local);
    assert_eq!(s.endpoint, "https://api.openai.com/v1");
    assert!(!s.override_model_path);
    assert_eq!(s.local_model_path, "");
    assert_eq!(s.preferred_device, None);
    assert!(!s.force_cpu_only);
    assert_eq!(s.default_gpu_model, default_gpu_model());
    assert_eq!(s.default_cpu_model, default_cpu_model());
    assert_eq!(s.max_completion_tokens, 256);
}

#[test]
fn test_readiness_missing_backend() {
    let m = LlmManager::new(local_settings(), "/m".to_string(), false);
    assert!(!m.is_local_available());
    assert_eq!(m.check_readiness(false, false), LlmReadiness::MissingLlamaCli);
}

#[test]
fn test_readiness_override_path() {
    let mut s = local_settings();
    s.override_model_path = true;
    s.local_model_path = "/models/custom.gguf".to_string();
    let m = LlmManager::new(s, "/m".to_string(), true);
    // A present override file is enough on its own.
    assert_eq!(m.check_readiness(true, false), LlmReadiness::Ready);
    // An absent override file falls back: ready when the default
    // reference is verified-present, else that reference is asked for.
    assert_eq!(m.check_readiness(false, true), LlmReadiness::Ready);
    assert_eq!(
        m.check_readiness(false, false),
        LlmReadiness::NeedsDownload {
            model_ref: default_gpu_model()
        }
    );
}

#[test]
fn test_readiness_default_reference() {
    let m = LlmManager::new(local_settings(), "/m".to_string(), true);
    assert_eq!(m.check_readiness(false, true), LlmReadiness::Ready);
    assert_eq!(
        m.check_readiness(false, false),
        LlmReadiness::NeedsDownload {
            model_ref: default_gpu_model()
        }
    );

    let mut cpu = local_settings();
    cpu.force_cpu_only = true;
    let mc = LlmManager::new(cpu, "/m".to_string(), true);
    assert_eq!(
        mc.check_readiness(false, false),
        LlmReadiness::NeedsDownload {
            model_ref: default_cpu_model()
        }
    );
}

#[test]
fn test_readiness_remote_endpoint() {
    let mut s = local_settings();
    s.provider = ProviderKind::OpenAI;
    s.endpoint = String::new();
    let m = LlmManager::new(s, "/m".to_string(), false);
    assert_eq!(m.check_readiness(false, false), LlmReadiness::NeedsEndpoint);

    let mut t = local_settings();
    t.provider = ProviderKind::Gemini;
    t.endpoint = "https://example.invalid/v1".to_string();
    let n = LlmManager::new(t, "/m".to_string(), false);
    assert_eq!(n.check_readiness(false, false), LlmReadiness::Ready);
}

#[test]
fn test_model_choice_and_gpu_layers() {
    let mut s = local_settings();
    s.override_model_path = true;
    s.local_model_path = "/override.gguf".to_string();
    let m = LlmManager::new(s, "/m".to_string(), true);
    match m.model_choice(true) {
        ModelChoice::OverridePath(p) => assert_eq!(p, "/override.gguf"),
        ModelChoice::Reference(_) => panic!("expected the override path"),
    }
    // An absent override file falls back to the device-class default.
    match m.model_choice(false) {
        ModelChoice::Reference(r) => assert_eq!(r, default_gpu_model()),
        ModelChoice::OverridePath(_) => panic!("expected the fallback reference"),
    }
    assert_eq!(m.planned_gpu_layers(), 999);
    assert_eq!(m.default_model_ref(), default_gpu_model());

    let mut cpu = local_settings();
    cpu.force_cpu_only = true;
    let mc = LlmManager::new(cpu, "/m".to_string(), true);
    match mc.model_choice(false) {
        ModelChoice::Reference(r) => assert_eq!(r, default_cpu_model()),
        ModelChoice::OverridePath(_) => panic!("expected the default reference"),
    }
    assert_eq!(mc.planned_gpu_layers(), 0);
    assert_eq!(mc.default_model_ref(), default_cpu_model());
}

#[test]
fn test_engine_slot_lifecycle() {
    let mut m = LlmManager::new(local_settings(), "/m".to_string(), true);
    assert!(m.needs_engine_load());
    m.note_engine_loaded();
    assert!(!m.needs_engine_load());
    m.unload_model();
    assert!(m.needs_engine_load());
}

#[test]
fn test_update_config_replaces_snapshot() {
    let mut m = LlmManager::new(local_settings(), "/m".to_string(), true);
    let mut next = local_settings();
    next.force_cpu_only = true;
    m.update_config(next);
    assert!(m.config().force_cpu_only);
}

#[test]
fn test_downloader_handle_shares_directory() {
    let m = LlmManager::new(local_settings(), "/data/models".to_string(), true);
    let d = m.downloader_handle();
    assert_eq!(d.artifact_path("f.gguf"), "/data/models/f.gguf");
}

#[test]
fn test_gpu_device_names() {
    assert_eq!(gpu_device_name(Some("0x1002"), 0), "AMD GPU");
    assert_eq!(gpu_device_name(Some("0x10de"), 1), "NVIDIA GPU");
    assert_eq!(gpu_device_name(Some("0x8086"), 2), "Intel GPU");
    assert_eq!(gpu_device_name(Some("0xabcd"), 3), "GPU 3");
    assert_eq!(gpu_device_name(None, 12), "GPU 12");
}

#[test]
fn test_card_entry_filter() {
    assert!(is_card_entry("card0"));
    assert!(is_card_entry("card1"));
    assert!(!is_card_entry("card0-DP-1"));
    assert!(!is_card_entry("renderD128"));
}

#[test]
fn test_settings_defaults() {
    let s = Settings::default();
    assert_eq!(s.autosave_interval_secs, 60);
    assert!(s.recent_files.is_empty());
    assert!(!s.autosave_idle_only);
    assert_eq!(s.llm.provider, ProviderKind::Local);
}

#[test]
fn test_window_state_defaults() {
    let w = WindowState::default();
    assert_eq!(w.width, 1024);
    assert_eq!(w.height, 720);
}

#[test]
fn test_app_paths_layout() {
    let p = AppPaths::locate("/cfg", "/data", Some("/state"));
    assert_eq!(p.config_file, "/cfg/config.toml");
    assert_eq!(p.state_file, "/state/state.json");
    assert_eq!(p.autosave_dir, "/state/autosave");
    assert_eq!(p.models_dir, "/data/models");

    let q = AppPaths::locate("/cfg", "/data", None);
    assert_eq!(q.state_file, "/data/state.json");
    assert_eq!(q.autosave_dir, "/data/autosave");
}
