//! Device-loss recovery: the retry schedule and the published progress.

use crate::time::{capped, Duration};
use vstd::arithmetic::power2::{lemma2_to64, lemma_pow2_unfold, pow2};
use vstd::prelude::*;

verus! {

#[derive(Debug, Clone, Copy, PartialEq, Eq, Structural)]
pub enum AudioRecoveryState {
    Stable,
    Disconnected,
    Recovering,
    Failed,
}

impl Default for AudioRecoveryState {
    fn default() -> (state: Self)
        ensures
            state == AudioRecoveryState::Stable,
    {
        AudioRecoveryState::Stable
    }
}

impl AudioRecoveryState {
    /// The state's name in diagnostics.
    pub open spec fn name(self) -> Seq<char> {
        match self {
            AudioRecoveryState::Stable => "stable"@,
            AudioRecoveryState::Disconnected => "disconnected"@,
            AudioRecoveryState::Recovering => "recovering"@,
            AudioRecoveryState::Failed => "failed"@,
        }
    }

    pub fn as_str(self) -> (name: &'static str)
        ensures
            name@ == self.name(),
    {
        match self {
            AudioRecoveryState::Stable => "stable",
            AudioRecoveryState::Disconnected => "disconnected",
            AudioRecoveryState::Recovering => "recovering",
            AudioRecoveryState::Failed => "failed",
        }
    }
}

/// Recovery progress as an observer sees it.
#[derive(Debug, Clone, Copy, PartialEq, Eq, Structural)]
pub struct AudioOutputRuntimeStats {
    pub recovery_state: AudioRecoveryState,
    pub last_error_code: i32,
    pub recovery_attempts: u64,
    pub recovery_count: u64,
    pub recovery_failures: u64,
    pub transition_sequence: u64,
}

impl AudioOutputRuntimeStats {
    /// The progress before anything happened.
    pub open spec fn initial() -> Self {
        AudioOutputRuntimeStats {
            recovery_state: AudioRecoveryState::Stable,
            last_error_code: 0,
            recovery_attempts: 0,
            recovery_count: 0,
            recovery_failures: 0,
            transition_sequence: 0,
        }
    }
}

impl Default for AudioOutputRuntimeStats {
    fn default() -> (stats: Self)
        ensures
            stats == AudioOutputRuntimeStats::initial(),
    {
        AudioOutputRuntimeStats {
            recovery_state: AudioRecoveryState::Stable,
            last_error_code: 0,
            recovery_attempts: 0,
            recovery_count: 0,
            recovery_failures: 0,
            transition_sequence: 0,
        }
    }
}

/// The delay before attempt number `attempt`, counted from zero: it doubles
/// with every attempt, up to the longest span.
pub open spec fn backoff_delay(initial_delay: nat, attempt: nat) -> nat {
    capped(initial_delay * pow2(attempt))
}

/// Exponential backoff schedule for audio device-loss recovery attempts.
#[derive(Debug, Clone, Copy, PartialEq, Eq, Structural)]
pub struct RecoveryBackoff {
    initial_delay: Duration,
    max_attempts: u32,
    attempts: u32,
}

impl RecoveryBackoff {
    pub closed spec fn initial_delay_nanos(&self) -> nat {
        self.initial_delay@
    }

    pub closed spec fn attempt_budget(&self) -> nat {
        self.max_attempts as nat
    }

    pub closed spec fn attempts_made(&self) -> nat {
        self.attempts as nat
    }

    pub open spec fn exhausted(&self) -> bool {
        self.attempts_made() >= self.attempt_budget()
    }

    pub fn new(initial_delay: Duration, max_attempts: u32) -> (backoff: Self)
        ensures
            backoff.initial_delay_nanos() == initial_delay@,
            backoff.attempt_budget() == max_attempts,
            backoff.attempts_made() == 0,
    {
        RecoveryBackoff { initial_delay, max_attempts, attempts: 0 }
    }

    /// Returns the delay to wait before the next recovery attempt, doubling
    /// on every call, or `None` once the attempt budget is exhausted.
    pub fn next_delay(&mut self) -> (delay: Option<Duration>)
        ensures
            final(self).initial_delay_nanos() == old(self).initial_delay_nanos(),
            final(self).attempt_budget() == old(self).attempt_budget(),
            delay is None <==> old(self).exhausted(),
            delay is None ==> final(self).attempts_made() == old(self).attempts_made(),
            delay matches Some(delay) ==> final(self).attempts_made() == old(self).attempts_made()
                + 1 && delay@ == backoff_delay(
                old(self).initial_delay_nanos(),
                old(self).attempts_made(),
            ),
    {
        if self.attempts >= self.max_attempts {
            return None;
        }
        let delay: Duration = self.initial_delay.saturating_double(self.attempts);
        self.attempts = self.attempts + 1;
        Some(delay)
    }

    pub fn attempts(&self) -> (attempts: u32)
        ensures
            attempts == self.attempts_made(),
    {
        self.attempts
    }

    pub fn is_exhausted(&self) -> (exhausted: bool)
        ensures
            exhausted == self.exhausted(),
    {
        self.attempts >= self.max_attempts
    }

    pub fn reset(&mut self)
        ensures
            final(self).initial_delay_nanos() == old(self).initial_delay_nanos(),
            final(self).attempt_budget() == old(self).attempt_budget(),
            final(self).attempts_made() == 0,
    {
        self.attempts = 0;
    }
}

/// The schedule starts at the initial delay.
pub proof fn lemma_backoff_starts_at_initial_delay(initial_delay: nat)
    ensures
        backoff_delay(initial_delay, 0) == capped(initial_delay),
{
    lemma2_to64();
    assert(pow2(0) == 1);
    assert(initial_delay * 1 == initial_delay);
}

/// Every delay is twice the one before it, short of the cap.
pub proof fn lemma_backoff_doubles(initial_delay: nat, attempt: nat)
    ensures
        backoff_delay(initial_delay, attempt + 1) == capped(
            2 * backoff_delay(initial_delay, attempt),
        ),
{
    lemma_pow2_unfold(attempt + 1);
    let delay = initial_delay * pow2(attempt);
    assert(initial_delay * (2 * pow2(attempt)) == 2 * (initial_delay * pow2(attempt)))
        by (nonlinear_arith);
}

/// Delays never shrink from one attempt to the next.
pub proof fn lemma_backoff_never_shrinks(initial_delay: nat, attempt: nat)
    ensures
        backoff_delay(initial_delay, attempt) <= backoff_delay(initial_delay, attempt + 1),
{
    lemma_backoff_doubles(initial_delay, attempt);
}

pub const RECOVERY_STATE_STABLE: u8 = 0;

pub const RECOVERY_STATE_DISCONNECTED: u8 = 1;

pub const RECOVERY_STATE_RECOVERING: u8 = 2;

pub const RECOVERY_STATE_FAILED: u8 = 3;

/// The state a published code stands for; an unknown code is stable.
pub open spec fn decoded_recovery_state(state: u8) -> AudioRecoveryState {
    if state == RECOVERY_STATE_DISCONNECTED {
        AudioRecoveryState::Disconnected
    } else if state == RECOVERY_STATE_RECOVERING {
        AudioRecoveryState::Recovering
    } else if state == RECOVERY_STATE_FAILED {
        AudioRecoveryState::Failed
    } else {
        AudioRecoveryState::Stable
    }
}

pub fn decode_recovery_state(state: u8) -> (decoded: AudioRecoveryState)
    ensures
        decoded == decoded_recovery_state(state),
{
    if state == RECOVERY_STATE_DISCONNECTED {
        AudioRecoveryState::Disconnected
    } else if state == RECOVERY_STATE_RECOVERING {
        AudioRecoveryState::Recovering
    } else if state == RECOVERY_STATE_FAILED {
        AudioRecoveryState::Failed
    } else {
        AudioRecoveryState::Stable
    }
}

/// One more, starting again from zero after the largest count.
pub open spec fn next_count(count: u64) -> u64 {
    if count == u64::MAX {
        0
    } else {
        (count + 1) as u64
    }
}

fn counted(count: u64) -> (next: u64)
    ensures
        next == next_count(count),
{
    if count == u64::MAX {
        0
    } else {
        count + 1
    }
}

/// The progress after the device was lost with `error_code`.
pub open spec fn disconnected(
    stats: AudioOutputRuntimeStats,
    error_code: i32,
) -> AudioOutputRuntimeStats {
    AudioOutputRuntimeStats {
        recovery_state: AudioRecoveryState::Disconnected,
        last_error_code: error_code,
        transition_sequence: next_count(stats.transition_sequence),
        ..stats
    }
}

/// The progress after a recovery attempt began.
pub open spec fn recovering(stats: AudioOutputRuntimeStats) -> AudioOutputRuntimeStats {
    AudioOutputRuntimeStats {
        recovery_state: AudioRecoveryState::Recovering,
        recovery_attempts: next_count(stats.recovery_attempts),
        transition_sequence: next_count(stats.transition_sequence),
        ..stats
    }
}

/// The progress after a recovery attempt succeeded: it commits only while the
/// attempt is the latest thing that happened.
pub open spec fn recovered(stats: AudioOutputRuntimeStats) -> Option<AudioOutputRuntimeStats> {
    if stats.recovery_state == AudioRecoveryState::Recovering {
        Some(
            AudioOutputRuntimeStats {
                recovery_state: AudioRecoveryState::Stable,
                recovery_count: next_count(stats.recovery_count),
                transition_sequence: next_count(stats.transition_sequence),
                ..stats
            },
        )
    } else {
        None
    }
}

/// The progress after a recovery attempt failed with `error_code`.
pub open spec fn failed(stats: AudioOutputRuntimeStats, error_code: i32) -> AudioOutputRuntimeStats {
    AudioOutputRuntimeStats {
        recovery_state: AudioRecoveryState::Failed,
        last_error_code: error_code,
        recovery_failures: next_count(stats.recovery_failures),
        transition_sequence: next_count(stats.transition_sequence),
        ..stats
    }
}

/// The progress after the current error was cleared.
pub open spec fn cleared(stats: AudioOutputRuntimeStats) -> AudioOutputRuntimeStats {
    AudioOutputRuntimeStats {
        recovery_state: AudioRecoveryState::Stable,
        last_error_code: 0,
        transition_sequence: next_count(stats.transition_sequence),
        ..stats
    }
}

/// Publication of audio device-loss recovery progress.
///
/// A backend records state transitions; control code reads a snapshot. The
/// state is kept as the code under which it is published.
#[derive(Debug)]
pub struct RecoverySignals {
    recovery_state: u8,
    last_error_code: i32,
    recovery_attempts: u64,
    recovery_count: u64,
    recovery_failures: u64,
    transition_sequence: u64,
}

impl View for RecoverySignals {
    type V = AudioOutputRuntimeStats;

    closed spec fn view(&self) -> AudioOutputRuntimeStats {
        AudioOutputRuntimeStats {
            recovery_state: decoded_recovery_state(self.recovery_state),
            last_error_code: self.last_error_code,
            recovery_attempts: self.recovery_attempts,
            recovery_count: self.recovery_count,
            recovery_failures: self.recovery_failures,
            transition_sequence: self.transition_sequence,
        }
    }
}

impl Default for RecoverySignals {
    fn default() -> (signals: Self)
        ensures
            signals@ == AudioOutputRuntimeStats::initial(),
    {
        RecoverySignals {
            recovery_state: RECOVERY_STATE_STABLE,
            last_error_code: 0,
            recovery_attempts: 0,
            recovery_count: 0,
            recovery_failures: 0,
            transition_sequence: 0,
        }
    }
}

impl RecoverySignals {
    pub fn mark_disconnected(&mut self, error_code: i32) -> (stats: AudioOutputRuntimeStats)
        ensures
            final(self)@ == disconnected(old(self)@, error_code),
            stats == final(self)@,
    {
        self.last_error_code = error_code;
        self.recovery_state = RECOVERY_STATE_DISCONNECTED;
        self.transition_sequence = counted(self.transition_sequence);
        self.snapshot()
    }

    pub fn begin_recovery(&mut self) -> (stats: AudioOutputRuntimeStats)
        ensures
            final(self)@ == recovering(old(self)@),
            stats == final(self)@,
    {
        self.recovery_attempts = counted(self.recovery_attempts);
        self.recovery_state = RECOVERY_STATE_RECOVERING;
        self.transition_sequence = counted(self.transition_sequence);
        self.snapshot()
    }

    /// Commits a successful recovery. Returns `None` when the state moved on
    /// meanwhile (for example a fresh disconnect landed before the commit),
    /// in which case the caller must keep the newer state visible.
    pub fn recovery_succeeded(&mut self) -> (stats: Option<AudioOutputRuntimeStats>)
        ensures
            stats == recovered(old(self)@),
            final(self)@ == (match recovered(old(self)@) {
                Some(after) => after,
                None => old(self)@,
            }),
    {
        if self.recovery_state != RECOVERY_STATE_RECOVERING {
            return None;
        }
        self.recovery_state = RECOVERY_STATE_STABLE;
        self.recovery_count = counted(self.recovery_count);
        self.transition_sequence = counted(self.transition_sequence);
        Some(self.snapshot())
    }

    pub fn recovery_failed(&mut self, error_code: i32) -> (stats: AudioOutputRuntimeStats)
        ensures
            final(self)@ == failed(old(self)@, error_code),
            stats == final(self)@,
    {
        self.last_error_code = error_code;
        self.recovery_failures = counted(self.recovery_failures);
        self.recovery_state = RECOVERY_STATE_FAILED;
        self.transition_sequence = counted(self.transition_sequence);
        self.snapshot()
    }

    pub fn reset(&mut self)
        ensures
            final(self)@ == cleared(old(self)@),
    {
        self.last_error_code = 0;
        self.recovery_state = RECOVERY_STATE_STABLE;
        self.transition_sequence = counted(self.transition_sequence);
    }

    pub fn snapshot(&self) -> (stats: AudioOutputRuntimeStats)
        ensures
            stats == self@,
    {
        AudioOutputRuntimeStats {
            recovery_state: decode_recovery_state(self.recovery_state),
            last_error_code: self.last_error_code,
            recovery_attempts: self.recovery_attempts,
            recovery_count: self.recovery_count,
            recovery_failures: self.recovery_failures,
            transition_sequence: self.transition_sequence,
        }
    }
}

/// A success does not commit once a fresh disconnect has superseded the
/// attempt.
pub proof fn lemma_fresh_disconnect_refuses_success(stats: AudioOutputRuntimeStats, error_code: i32)
    ensures
        recovered(disconnected(recovering(stats), error_code)) is None,
{
}

/// An attempt that nothing interrupts commits, ends stable and is counted
/// once.
pub proof fn lemma_uninterrupted_recovery_commits(stats: AudioOutputRuntimeStats)
    ensures
        recovered(recovering(stats)) matches Some(after) && after.recovery_state
            == AudioRecoveryState::Stable && after.recovery_count == next_count(
            stats.recovery_count,
        ) && after.recovery_attempts == next_count(stats.recovery_attempts)
            && after.last_error_code == stats.last_error_code,
{
}

/// Every transition that takes effect advances the sequence by one, so an
/// observer that sees the same number twice has missed nothing in between.
pub proof fn lemma_every_transition_advances_the_sequence(
    stats: AudioOutputRuntimeStats,
    error_code: i32,
)
    ensures
        disconnected(stats, error_code).transition_sequence == next_count(
            stats.transition_sequence,
        ),
        recovering(stats).transition_sequence == next_count(stats.transition_sequence),
        failed(stats, error_code).transition_sequence == next_count(stats.transition_sequence),
        cleared(stats).transition_sequence == next_count(stats.transition_sequence),
        recovered(stats) matches Some(after) ==> after.transition_sequence == next_count(
            stats.transition_sequence,
        ),
        next_count(stats.transition_sequence) != stats.transition_sequence,
{
}

/// Clearing an error keeps the history of attempts, successes and failures.
pub proof fn lemma_clearing_keeps_history(stats: AudioOutputRuntimeStats)
    ensures
        cleared(stats).recovery_attempts == stats.recovery_attempts,
        cleared(stats).recovery_count == stats.recovery_count,
        cleared(stats).recovery_failures == stats.recovery_failures,
{
}

/// What a transition counts and what it leaves. A loss records its error and counts
/// nothing; an attempt, a failure and a success count themselves, once each; only a
/// recovery under way can succeed; and a state changes to what the transition is
/// named for.
pub proof fn lemma_transitions_count_what_they_are(stats: AudioOutputRuntimeStats, error_code: i32)
    requires
        stats.recovery_attempts < u64::MAX,
        stats.recovery_count < u64::MAX,
        stats.recovery_failures < u64::MAX,
        stats.transition_sequence < u64::MAX,
    ensures
        ({
            let lost = disconnected(stats, error_code);
            &&& lost.recovery_state == AudioRecoveryState::Disconnected
            &&& lost.last_error_code == error_code
            &&& lost.recovery_attempts == stats.recovery_attempts
            &&& lost.recovery_count == stats.recovery_count
            &&& lost.recovery_failures == stats.recovery_failures
            &&& lost.transition_sequence == stats.transition_sequence + 1
        }),
        ({
            let begun = recovering(stats);
            &&& begun.recovery_state == AudioRecoveryState::Recovering
            &&& begun.last_error_code == stats.last_error_code
            &&& begun.recovery_attempts == stats.recovery_attempts + 1
            &&& begun.recovery_count == stats.recovery_count
            &&& begun.recovery_failures == stats.recovery_failures
            &&& begun.transition_sequence == stats.transition_sequence + 1
        }),
        ({
            let given_up = failed(stats, error_code);
            &&& given_up.recovery_state == AudioRecoveryState::Failed
            &&& given_up.last_error_code == error_code
            &&& given_up.recovery_attempts == stats.recovery_attempts
            &&& given_up.recovery_count == stats.recovery_count
            &&& given_up.recovery_failures == stats.recovery_failures + 1
            &&& given_up.transition_sequence == stats.transition_sequence + 1
        }),
        ({
            let clear = cleared(stats);
            &&& clear.recovery_state == AudioRecoveryState::Stable
            &&& clear.last_error_code == 0
            &&& clear.transition_sequence == stats.transition_sequence + 1
        }),
        stats.recovery_state != AudioRecoveryState::Recovering ==> recovered(stats) is None,
        stats.recovery_state == AudioRecoveryState::Recovering ==> ({
            &&& recovered(stats) matches Some(back)
            &&& back.recovery_state == AudioRecoveryState::Stable
            &&& back.last_error_code == stats.last_error_code
            &&& back.recovery_attempts == stats.recovery_attempts
            &&& back.recovery_count == stats.recovery_count + 1
            &&& back.recovery_failures == stats.recovery_failures
            &&& back.transition_sequence == stats.transition_sequence + 1
        }),
{
}

/// The codes that a recovery state is published by, and the state that each code is
/// read back as. A code that is none of them is read as stable.
pub proof fn lemma_recovery_states_are_published_by_code(code: u8)
    ensures
        decoded_recovery_state(0) == AudioRecoveryState::Stable,
        decoded_recovery_state(1) == AudioRecoveryState::Disconnected,
        decoded_recovery_state(2) == AudioRecoveryState::Recovering,
        decoded_recovery_state(3) == AudioRecoveryState::Failed,
        code > 3 ==> decoded_recovery_state(code) == AudioRecoveryState::Stable,
        AudioRecoveryState::Stable.name() == "stable"@,
        AudioRecoveryState::Disconnected.name() == "disconnected"@,
        AudioRecoveryState::Recovering.name() == "recovering"@,
        AudioRecoveryState::Failed.name() == "failed"@,
{
}

/// A new output is stable and has counted nothing.
pub proof fn lemma_nothing_is_counted_at_first()
    ensures
        ({
            let new = AudioOutputRuntimeStats::initial();
            &&& new.recovery_state == AudioRecoveryState::Stable
            &&& new.last_error_code == 0
            &&& new.recovery_attempts == 0
            &&& new.recovery_count == 0
            &&& new.recovery_failures == 0
            &&& new.transition_sequence == 0
        }),
{
}

} // verus!
