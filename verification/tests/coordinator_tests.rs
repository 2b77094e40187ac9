use ghostpad_llm::completion::{
    build_completion_context, effective_max_tokens, CompletionCoordinator, CompletionTrigger,
};
use ghostpad_llm::errors::CompletionError;

#[test]
fn test_generation_discard_in_both_arrival_orders() {
    let mut c = CompletionCoordinator::new();
    let first = c.bump_completion_generation();
    let second = c.bump_completion_generation();
    assert_eq!(first, 1);
    assert_eq!(second, 2);

    // The older request's result is discarded, the newer one accepted,
    // whichever finishes first.
    assert!(!c.should_accept(first));
    assert!(c.should_accept(second));
    assert!(c.should_accept(second));
    assert!(!c.should_accept(first));
}

#[test]
fn test_checkpoint_cancels_stale_request() {
    let mut c = CompletionCoordinator::new();
    let stamp = c.bump_completion_generation();
    assert!(c.checkpoint(stamp).is_ok());
    c.bump_completion_generation();
    assert_eq!(c.checkpoint(stamp).unwrap_err(), CompletionError::Cancelled);
}

#[test]
fn test_generation_counter_wraps() {
    let mut c = CompletionCoordinator::new();
    c.generation = u64::MAX;
    let next = c.bump_completion_generation();
    assert_eq!(next, 0);
}

#[test]
fn test_debounce_ceiling_forces_fire() {
    let mut c = CompletionCoordinator::new();
    // Continuous triggers, each 80 ms apart: debounced every time until
    // the ceiling elapses, then fired immediately.
    assert_eq!(c.schedule_auto_completion(0), Some(100));
    assert_eq!(c.schedule_auto_completion(80), Some(100));
    assert_eq!(c.schedule_auto_completion(160), Some(100));
    assert_eq!(c.schedule_auto_completion(240), Some(100));
    assert_eq!(c.schedule_auto_completion(320), Some(100));
    assert_eq!(c.schedule_auto_completion(400), Some(100));
    assert_eq!(c.schedule_auto_completion(480), Some(100));
    assert_eq!(c.schedule_auto_completion(560), Some(0));
}

#[test]
fn test_debounce_streak_resets_after_fire() {
    let mut c = CompletionCoordinator::new();
    assert_eq!(c.schedule_auto_completion(0), Some(100));
    c.debounce_fired();
    // A fresh streak starts: its clock begins anew.
    assert_eq!(c.schedule_auto_completion(600), Some(100));
    assert_eq!(c.schedule_auto_completion(700), Some(100));
    assert_eq!(c.schedule_auto_completion(1100), Some(0));
}

#[test]
fn test_manual_inflight_suppresses_auto_scheduling() {
    let mut c = CompletionCoordinator::new();
    c.begin_request(CompletionTrigger::Manual);
    assert_eq!(c.schedule_auto_completion(0), None);
    c.finish_request(CompletionTrigger::Manual);
    assert_eq!(c.schedule_auto_completion(10), Some(100));
}

#[test]
fn test_inflight_flags_cleared_unconditionally() {
    let mut c = CompletionCoordinator::new();
    c.begin_request(CompletionTrigger::Automatic);
    assert!(c.auto_running);
    // Even a stale or failed request clears its flag.
    c.bump_completion_generation();
    c.finish_request(CompletionTrigger::Automatic);
    assert!(!c.auto_running);
}

#[test]
fn test_fim_context_formatting() {
    let ctx = build_completion_context("abc", "def");
    assert!(ctx.fim);
    assert_eq!(ctx.text, "<|fim_prefix|>abc<|fim_suffix|>def<|fim_middle|>");

    let tail = build_completion_context("abc", "");
    assert!(!tail.fim);
    assert_eq!(tail.text, "abc");
}

#[test]
fn test_context_caps_prefix_and_suffix() {
    let prefix: String = std::iter::repeat('p').take(2500).collect();
    let suffix: String = std::iter::repeat('s').take(1500).collect();
    let ctx = build_completion_context(&prefix, &suffix);
    assert!(ctx.fim);
    let expected_len = "<|fim_prefix|>".len() + 2000 + "<|fim_suffix|>".len() + 1000
        + "<|fim_middle|>".len();
    assert_eq!(ctx.text.len(), expected_len);
}

#[test]
fn test_fim_token_clamp() {
    // A fill-in-the-middle request uses the smaller of the two ceilings,
    // even when the configuration allows more.
    assert_eq!(effective_max_tokens(true, 200), 50);
    assert_eq!(effective_max_tokens(true, 7), 7);
    assert_eq!(effective_max_tokens(false, 200), 200);
}
