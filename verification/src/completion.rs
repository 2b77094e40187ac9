//! The completion request lifecycle: generation stamping, the staleness
//! checkpoints that make cancellation cooperative, the debounce policy
//! with its forced-fire ceiling, fill-in-the-middle context building,
//! and the token-budget clamp.

use vstd::prelude::*;

use crate::errors::CompletionError;

verus! {

/// The debounce delay for automatic triggers, in milliseconds.
pub const DEBOUNCE_MS: u64 = 100;

/// The forced-fire ceiling: an automatic request fires at most this many
/// milliseconds after the first trigger of a debounce streak.
pub const MAX_WAIT_MS: u64 = 500;

/// The token ceiling for fill-in-the-middle requests, which fill a small
/// gap rather than continue open-endedly.
pub const FIM_MAX_TOKENS: usize = 50;

/// The character budget for the text before the cursor.
pub const PREFIX_CHARS: usize = 2000;

/// The character budget for the text after the cursor.
pub const SUFFIX_CHARS: usize = 1000;

/// What caused a completion request.
#[derive(Debug, Clone, Copy, PartialEq, Eq, Structural)]
pub enum CompletionTrigger {
    /// User-invoked; always runs and suppresses automatic scheduling.
    Manual,
    /// Debounced, triggered by text changes; may be superseded.
    Automatic,
}

/// A result stamped with generation `stamp` is accepted only while the
/// counter still reads `stamp`.
pub open spec fn spec_accepts(current: u64, stamp: u64) -> bool {
    stamp == current
}

/// The counter value after one bump.
pub open spec fn spec_next_generation(g: u64) -> u64 {
    if g == u64::MAX {
        0
    } else {
        (g + 1) as u64
    }
}

/// The stamp of the result the host displays after worker results with
/// the given stamps arrived in order, against a counter reading
/// `current`: each arrival is accepted only if its stamp is current,
/// and an accepted arrival replaces whatever was displayed.
pub open spec fn spec_host_view(current: u64, arrivals: Seq<u64>) -> Option<u64>
    decreases arrivals.len(),
{
    if arrivals.len() == 0 {
        None
    } else if spec_accepts(current, arrivals.last()) {
        Some(arrivals.last())
    } else {
        spec_host_view(current, arrivals.drop_last())
    }
}

/// The host only ever displays a result of the current generation,
/// whatever order worker results arrive in.
pub proof fn lemma_only_current_accepted(current: u64, arrivals: Seq<u64>)
    ensures
        spec_host_view(current, arrivals) is Some ==> spec_host_view(current, arrivals) == Some(
            current,
        ),
    decreases arrivals.len(),
{
    if arrivals.len() > 0 && !spec_accepts(current, arrivals.last()) {
        lemma_only_current_accepted(current, arrivals.drop_last());
    }
}

/// Generation discard: with the counter at the newer request's stamp, the
/// older request's result is discarded and the newer one accepted, in
/// both arrival orders; the older result alone leaves the host empty.
pub proof fn lemma_generation_discard(current: u64, stale: u64)
    requires
        stale != current,
    ensures
        spec_host_view(current, seq![stale, current]) == Some(current),
        spec_host_view(current, seq![current, stale]) == Some(current),
        spec_host_view(current, seq![stale]) is None,
{
    assert(seq![stale, current].last() == current);
    assert(seq![current, stale].last() == stale);
    assert(seq![current, stale].drop_last() =~= seq![current]);
    assert(seq![current].last() == current);
    assert(spec_host_view(current, seq![current]) == Some(current));
    assert(seq![stale].last() == stale);
    assert(seq![stale].drop_last() =~= Seq::<u64>::empty());
    assert(spec_host_view(current, Seq::<u64>::empty()) is None);
}

/// Every bump supersedes the generation before it: a result stamped with
/// the old counter value is no longer accepted.
pub proof fn lemma_bump_supersedes(g: u64)
    ensures
        spec_next_generation(g) != g,
        !spec_accepts(spec_next_generation(g), g),
{
}

/// Owns the request-generation counter, the in-flight flags, and the
/// debounce streak; every scheduling and acceptance decision is made
/// here, while timers, threads and channels stay with the caller.
pub struct CompletionCoordinator {
    /// The process-wide request generation counter.
    pub generation: u64,
    /// A manual request is in flight; automatic scheduling is suppressed.
    pub manual_inflight: bool,
    /// An automatic request is in flight.
    pub auto_running: bool,
    /// An automatic request is scheduled and has not fired yet.
    pub debounce_pending: bool,
    /// When the current debounce streak began, in caller clock
    /// milliseconds.
    pub first_schedule_ms: Option<u64>,
}

/// The delay scheduling assigns to a trigger at `now`: `None` while a
/// manual request suppresses automatic scheduling; zero once the ceiling
/// has elapsed since the streak began; else the debounce delay.
pub open spec fn spec_schedule_delay(c: CompletionCoordinator, now: u64) -> Option<u64> {
    if c.manual_inflight {
        None
    } else if spec_schedule_forces(c, now) {
        Some(0u64)
    } else {
        Some(DEBOUNCE_MS)
    }
}

/// Whether a trigger at `now` must fire immediately: the ceiling has
/// elapsed since the first trigger of the streak.
pub open spec fn spec_schedule_forces(c: CompletionCoordinator, now: u64) -> bool {
    match c.first_schedule_ms {
        Some(f) => f + MAX_WAIT_MS <= now,
        None => false,
    }
}

impl CompletionCoordinator {
    /// A fresh coordinator: counter at zero, nothing in flight, nothing
    /// scheduled.
    pub fn new() -> (c: CompletionCoordinator)
        ensures
            c.generation == 0,
            !c.manual_inflight,
            !c.auto_running,
            !c.debounce_pending,
            c.first_schedule_ms is None,
    {
        CompletionCoordinator {
            generation: 0,
            manual_inflight: false,
            auto_running: false,
            debounce_pending: false,
            first_schedule_ms: None,
        }
    }

    /// Advance the generation counter and return the new value; every
    /// older stamp is superseded from here on.
    pub fn bump_completion_generation(&mut self) -> (g: u64)
        ensures
            final(self).generation == spec_next_generation(old(self).generation),
            g == final(self).generation,
            final(self).manual_inflight == old(self).manual_inflight,
            final(self).auto_running == old(self).auto_running,
            final(self).debounce_pending == old(self).debounce_pending,
            final(self).first_schedule_ms == old(self).first_schedule_ms,
    {
        let next = self.generation.wrapping_add(1);
        self.generation = next;
        next
    }

    /// Whether a result stamped `stamp` is still current and may be
    /// delivered; anything else is discarded silently.
    pub fn should_accept(&self, stamp: u64) -> (r: bool)
        ensures
            r == spec_accepts(self.generation, stamp),
    {
        stamp == self.generation
    }

    /// The staleness checkpoint a worker passes before taking the engine
    /// lock, again after taking it, and once more before delivery: a
    /// superseded request aborts with `Cancelled`, which is never a
    /// user-visible error.
    pub fn checkpoint(&self, stamp: u64) -> (r: Result<(), CompletionError>)
        ensures
            r is Ok <==> spec_accepts(self.generation, stamp),
            r is Err ==> r == Err::<(), CompletionError>(CompletionError::Cancelled),
    {
        if stamp == self.generation {
            Ok(())
        } else {
            Err(CompletionError::Cancelled)
        }
    }

    /// Handle a trigger at caller time `now`: cancel whatever was
    /// scheduled and schedule anew, returning the delay to wait before
    /// firing — zero when the forced-fire ceiling has elapsed since the
    /// streak began — or `None` while a manual request is in flight.
    pub fn schedule_auto_completion(&mut self, now: u64) -> (d: Option<u64>)
        ensures
            d == spec_schedule_delay(*old(self), now),
            final(self).generation == old(self).generation,
            final(self).manual_inflight == old(self).manual_inflight,
            final(self).auto_running == old(self).auto_running,
            old(self).manual_inflight ==> *final(self) == *old(self),
            !old(self).manual_inflight ==> {
                &&& final(self).debounce_pending
                &&& final(self).first_schedule_ms == (
                    if !old(self).debounce_pending || spec_schedule_forces(*old(self), now) {
                        Some(now)
                    } else {
                        old(self).first_schedule_ms
                    }
                )
            },
    {
        if self.manual_inflight {
            return None;
        }
        let force = match self.first_schedule_ms {
            Some(f) => f <= u64::MAX - MAX_WAIT_MS && f + MAX_WAIT_MS <= now,
            None => false,
        };
        if !self.debounce_pending || force {
            self.first_schedule_ms = Some(now);
        }
        self.debounce_pending = true;
        if force {
            Some(0)
        } else {
            Some(DEBOUNCE_MS)
        }
    }

    /// The scheduled automatic request fired: the streak is over.
    pub fn debounce_fired(&mut self)
        ensures
            !final(self).debounce_pending,
            final(self).first_schedule_ms is None,
            final(self).generation == old(self).generation,
            final(self).manual_inflight == old(self).manual_inflight,
            final(self).auto_running == old(self).auto_running,
    {
        self.debounce_pending = false;
        self.first_schedule_ms = None;
    }

    /// Drop the scheduled automatic request without firing it.
    pub fn cancel_debounce(&mut self)
        ensures
            !final(self).debounce_pending,
            final(self).first_schedule_ms == old(self).first_schedule_ms,
            final(self).generation == old(self).generation,
            final(self).manual_inflight == old(self).manual_inflight,
            final(self).auto_running == old(self).auto_running,
    {
        self.debounce_pending = false;
    }

    /// Mark a request of the given class in flight.
    pub fn begin_request(&mut self, trigger: CompletionTrigger)
        ensures
            trigger is Manual ==> final(self).manual_inflight && final(self).auto_running == old(
                self,
            ).auto_running,
            trigger is Automatic ==> final(self).auto_running && final(self).manual_inflight
                == old(self).manual_inflight,
            final(self).generation == old(self).generation,
            final(self).debounce_pending == old(self).debounce_pending,
            final(self).first_schedule_ms == old(self).first_schedule_ms,
    {
        match trigger {
            CompletionTrigger::Manual => {
                self.manual_inflight = true;
            },
            CompletionTrigger::Automatic => {
                self.auto_running = true;
            },
        }
    }

    /// Clear the in-flight flag of the given class, unconditionally, on
    /// completion or failure and regardless of staleness — a wedged flag
    /// would suppress all future scheduling.
    pub fn finish_request(&mut self, trigger: CompletionTrigger)
        ensures
            trigger is Manual ==> !final(self).manual_inflight && final(self).auto_running == old(
                self,
            ).auto_running,
            trigger is Automatic ==> !final(self).auto_running && final(self).manual_inflight
                == old(self).manual_inflight,
            final(self).generation == old(self).generation,
            final(self).debounce_pending == old(self).debounce_pending,
            final(self).first_schedule_ms == old(self).first_schedule_ms,
    {
        match trigger {
            CompletionTrigger::Manual => {
                self.manual_inflight = false;
            },
            CompletionTrigger::Automatic => {
                self.auto_running = false;
            },
        }
    }
}

/// Debounce ceiling: a trigger arriving once the ceiling has elapsed
/// since the streak began is scheduled with zero delay — under
/// continuous typing, an automatic request still fires within the
/// ceiling instead of being debounced forever.
pub proof fn lemma_debounce_ceiling(c: CompletionCoordinator, now: u64, f: u64)
    requires
        !c.manual_inflight,
        c.first_schedule_ms == Some(f),
        f + MAX_WAIT_MS <= now,
    ensures
        spec_schedule_delay(c, now) == Some(0u64),
{
}

/// The text handed to the engine, with whether it is a
/// fill-in-the-middle request.
pub struct CompletionContext {
    /// The prompt text, formatted per the engine's convention.
    pub text: String,
    /// Both prefix and suffix were non-empty: the request fills a gap.
    pub fim: bool,
}

/// The prefix actually used: the last `PREFIX_CHARS` characters before
/// the cursor.
pub open spec fn spec_capped_prefix(p: Seq<char>) -> Seq<char> {
    if p.len() <= PREFIX_CHARS {
        p
    } else {
        p.subrange(p.len() - PREFIX_CHARS, p.len() as int)
    }
}

/// The suffix actually used: the first `SUFFIX_CHARS` characters after
/// the cursor.
pub open spec fn spec_capped_suffix(s: Seq<char>) -> Seq<char> {
    if s.len() <= SUFFIX_CHARS {
        s
    } else {
        s.take(SUFFIX_CHARS as int)
    }
}

/// The prompt text: fill-in-the-middle sentinels around prefix and
/// suffix when both are non-empty, else the prefix alone.
pub open spec fn spec_context_text(p: Seq<char>, s: Seq<char>) -> Seq<char> {
    if spec_capped_prefix(p).len() > 0 && spec_capped_suffix(s).len() > 0 {
        "<|fim_prefix|>"@ + spec_capped_prefix(p) + "<|fim_suffix|>"@ + spec_capped_suffix(s)
            + "<|fim_middle|>"@
    } else {
        spec_capped_prefix(p)
    }
}

/// Build the completion context from the text around the cursor: the
/// prefix capped at its character budget from the end, the suffix at its
/// budget from the start, formatted per the engine's fill-in-the-middle
/// convention exactly when both are non-empty.
pub fn build_completion_context(prefix: &str, suffix: &str) -> (r: CompletionContext)
    ensures
        r.text@ == spec_context_text(prefix@, suffix@),
        r.fim == (spec_capped_prefix(prefix@).len() > 0 && spec_capped_suffix(suffix@).len() > 0),
{
    let pn: usize = prefix.unicode_len();
    let sn: usize = suffix.unicode_len();
    let p: &str = if pn <= PREFIX_CHARS {
        prefix
    } else {
        prefix.substring_char(pn - PREFIX_CHARS, pn)
    };
    let s: &str = if sn <= SUFFIX_CHARS {
        suffix
    } else {
        suffix.substring_char(0, SUFFIX_CHARS)
    };
    let fim = p.unicode_len() > 0 && s.unicode_len() > 0;
    if fim {
        let mut text = String::from_str("<|fim_prefix|>");
        text.append(p);
        text.append("<|fim_suffix|>");
        text.append(s);
        text.append("<|fim_middle|>");
        proof {
            assert(text@ =~= spec_context_text(prefix@, suffix@));
        }
        CompletionContext { text, fim }
    } else {
        CompletionContext { text: String::from_str(p), fim }
    }
}

/// The token budget a request runs with: fill-in-the-middle requests are
/// clamped to the smaller of the FIM ceiling and the configured general
/// ceiling; free-form requests use the configured ceiling.
pub fn effective_max_tokens(fim: bool, configured: usize) -> (r: usize)
    ensures
        fim ==> r == (if configured < FIM_MAX_TOKENS {
            configured
        } else {
            FIM_MAX_TOKENS
        }),
        !fim ==> r == configured,
{
    if fim {
        if configured < FIM_MAX_TOKENS {
            configured
        } else {
            FIM_MAX_TOKENS
        }
    } else {
        configured
    }
}

/// Token clamp: a fill-in-the-middle request never exceeds the FIM
/// ceiling, nor the configured general ceiling, even when the
/// configuration allows more.
pub proof fn lemma_fim_token_clamp(configured: usize, r: usize)
    requires
        r == (if configured < FIM_MAX_TOKENS {
            configured
        } else {
            FIM_MAX_TOKENS
        }),
    ensures
        r <= FIM_MAX_TOKENS,
        r <= configured,
{
}

} // verus!
