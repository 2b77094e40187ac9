use ghostpad_llm::errors::{ParseError, ResolutionError};
use ghostpad_llm::huggingface::{resolve_alias, HuggingFaceModel};

#[test]
fn test_parse_hf_model() {
    let model = HuggingFaceModel::parse("owner/repo:file.gguf").unwrap();
    assert_eq!(model.repo, "owner/repo");
    assert_eq!(model.revision, "main");
    assert_eq!(model.file, "file.gguf");
    assert_eq!(model.filename(), "file.gguf");
}

#[test]
fn test_parse_hf_model_with_path() {
    let model = HuggingFaceModel::parse("owner/repo/path/to/file.gguf").unwrap();
    assert_eq!(model.repo, "owner/repo");
    assert_eq!(model.revision, "main");
    assert_eq!(model.file, "path/to/file.gguf");
    assert_eq!(model.filename(), "file.gguf");
}

#[test]
fn test_parse_with_revision() {
    let model = HuggingFaceModel::parse("owner/repo@refs/pr/1:snapshots/file.bin").unwrap();
    assert_eq!(model.repo, "owner/repo");
    assert_eq!(model.revision, "refs/pr/1");
    assert_eq!(model.file, "snapshots/file.bin");
}

#[test]
fn test_parse_explicit_filename() {
    let reference =
        "mradermacher/Luau-Qwen3-4B-FIM-v0.1-i1-GGUF:Luau-Qwen3-4B-FIM-v0.1.i1-Q4_K_M.gguf";
    let model = HuggingFaceModel::parse(reference).unwrap();
    assert_eq!(model.repo, "mradermacher/Luau-Qwen3-4B-FIM-v0.1-i1-GGUF");
    assert_eq!(model.file, "Luau-Qwen3-4B-FIM-v0.1.i1-Q4_K_M.gguf");
    assert_eq!(
        model.download_url(),
        "https://huggingface.co/mradermacher/Luau-Qwen3-4B-FIM-v0.1-i1-GGUF/resolve/main/Luau-Qwen3-4B-FIM-v0.1.i1-Q4_K_M.gguf?download=1"
    );
}

#[test]
fn test_download_url() {
    let model = HuggingFaceModel::parse("mradermacher/Luau-Qwen3-4B:Q4_K_M.gguf").unwrap();
    assert_eq!(
        model.download_url(),
        "https://huggingface.co/mradermacher/Luau-Qwen3-4B/resolve/main/Q4_K_M.gguf?download=1"
    );
}

#[test]
fn test_parse_round_trip_url_embeds_components() {
    let model = HuggingFaceModel::parse("owner/repo@refs/pr/1:sub/file.bin").unwrap();
    assert_eq!(model.repo, "owner/repo");
    assert_eq!(model.revision, "refs/pr/1");
    assert_eq!(model.file, "sub/file.bin");
    assert_eq!(
        model.download_url(),
        "https://huggingface.co/owner/repo/resolve/refs/pr/1/sub/file.bin?download=1"
    );
}

#[test]
fn test_parse_rejects_empty_reference() {
    assert_eq!(
        HuggingFaceModel::parse("").unwrap_err(),
        ParseError::EmptyReference
    );
    assert_eq!(
        HuggingFaceModel::parse("   ").unwrap_err(),
        ParseError::EmptyReference
    );
    // No-break space, em space and ideographic space are whitespace too.
    assert_eq!(
        HuggingFaceModel::parse("\u{00A0}\u{2003}\u{3000}").unwrap_err(),
        ParseError::EmptyReference
    );
}

#[test]
fn test_parse_rejects_missing_owner_repo() {
    assert_eq!(
        HuggingFaceModel::parse("justowner").unwrap_err(),
        ParseError::MissingOwnerRepo
    );
    assert_eq!(
        HuggingFaceModel::parse("justowner:file.gguf").unwrap_err(),
        ParseError::MissingOwnerRepo
    );
}

#[test]
fn test_parse_rejects_missing_filename() {
    assert_eq!(
        HuggingFaceModel::parse("owner/repo").unwrap_err(),
        ParseError::MissingFilename
    );
    let msg = ParseError::MissingFilename.message();
    assert_eq!(
        msg,
        "Missing filename; provide 'owner/repo:relative/path/to/file.gguf'"
    );
}

#[test]
fn test_needs_filename_resolution() {
    let alias = HuggingFaceModel::parse("owner/repo:Q4_K_M").unwrap();
    assert!(alias.needs_filename_resolution());
    let concrete = HuggingFaceModel::parse("owner/repo:file.gguf").unwrap();
    assert!(!concrete.needs_filename_resolution());
}

#[test]
fn test_resolve_alias_exact_suffix_beats_shortest() {
    let listing = vec!["a-Q4.gguf".to_string(), "a-Q4_K_M.gguf".to_string()];
    let resolved = resolve_alias(&listing, "Q4_K_M").unwrap();
    assert_eq!(resolved, "a-Q4_K_M.gguf");
}

#[test]
fn test_resolve_alias_shortest_candidate_wins() {
    let listing = vec![
        "model-Q4_K_M-extra-long.gguf".to_string(),
        "model-Q4_K_M-x.gguf".to_string(),
        "readme.md".to_string(),
    ];
    let resolved = resolve_alias(&listing, "q4_k_m").unwrap();
    assert_eq!(resolved, "model-Q4_K_M-x.gguf");
}

#[test]
fn test_resolve_alias_no_match_is_error() {
    let listing = vec!["a-Q4.gguf".to_string(), "notes.txt".to_string()];
    assert_eq!(
        resolve_alias(&listing, "zzz").unwrap_err(),
        ResolutionError::NoMatch
    );
}

#[test]
fn test_resolve_alias_deterministic() {
    let listing = vec![
        "Luau-Qwen3-4B-FIM-v0.1.i1-Q4_K_M.gguf".to_string(),
        "Luau-Qwen3-4B-FIM-v0.1.i1-Q4_K_S.gguf".to_string(),
    ];
    let first = resolve_alias(&listing, "Q4_K_M").unwrap();
    let second = resolve_alias(&listing, "Q4_K_M").unwrap();
    assert_eq!(first, second);
    assert_eq!(first, "Luau-Qwen3-4B-FIM-v0.1.i1-Q4_K_M.gguf");
}

#[test]
fn test_materialize_filename_resolves_alias_once() {
    let listing = vec!["sub/model-Q4_K_M.gguf".to_string()];
    let mut model = HuggingFaceModel::parse("owner/repo:Q4_K_M").unwrap();
    model.materialize_filename(&listing).unwrap();
    assert_eq!(model.file, "sub/model-Q4_K_M.gguf");
    assert_eq!(model.filename(), "model-Q4_K_M.gguf");

    let mut concrete = HuggingFaceModel::parse("owner/repo:file.gguf").unwrap();
    concrete.materialize_filename(&listing).unwrap();
    assert_eq!(concrete.file, "file.gguf");
}
