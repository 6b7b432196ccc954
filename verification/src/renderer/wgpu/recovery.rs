//! Recovery of a lost device on Android: every candidate is given one chance,
//! the surface and the last frame are restored, and the counters go on.

use crate::float::FloatBits;
use crate::renderer::output::{
    add_retired_output_counters, accumulate_retired_output_status, with_retired_counters,
    OutputHeadroomState, OutputRuntimeStatus,
};
use crate::renderer::pipeline::{is_product, LumaUpscalerMode};
use crate::renderer::stats::{
    accumulate_retired_renderer_stats, add_retired_renderer_stats, with_retired_stats,
    LumaUpscalerBackendStatus, RendererRuntimeStats,
};
use crate::renderer::surface::{
    PlatformSurface, SurfaceMetrics, WgpuSurfaceHandle, WgpuSurfaceKind,
};
use crate::renderer::wgpu::backend::{
    attempted, attempted_candidate_prefix, lemma_attempts_end_with_the_selected_candidate,
    lemma_order_tries_each_untried_candidate_once, recovery_candidate_order, rotation, untried,
};
use crate::renderer::wgpu::device::DeviceOutcome;
use crate::renderer::wgpu::draw::upscaler_switch_needed;
use crate::renderer::wgpu::surface::{
    detached_status, is_headroom_distance, same_headroom, SurfaceError,
};
use crate::renderer::wgpu::{UpscalerReport, WgpuRenderer, WgpuRendererStats};
use crate::time::{Duration, NANOS_PER_MILLI};
use vstd::prelude::*;

verus! {

/// Something that has gone wrong on a device.
#[derive(Debug, Clone, PartialEq, Eq)]
pub struct AndroidWgpuDeviceFailure {
    pub kind: &'static str,
    pub reason: String,
}

/// Whether a device can still be used.
#[derive(Debug)]
pub struct AndroidWgpuDeviceHealth {
    failure: Option<AndroidWgpuDeviceFailure>,
}

/// The kind of failure that a device is given when it cannot be polled.
pub const POLL_ERROR: &'static str = "poll_error";

impl AndroidWgpuDeviceHealth {
    /// The failure that the device has.
    pub closed spec fn known(self) -> Option<AndroidWgpuDeviceFailure> {
        self.failure
    }

    /// A device without a failure.
    pub fn new() -> (health: Self)
        ensures
            health.known() is None,
    {
        AndroidWgpuDeviceHealth { failure: None }
    }

    /// Notes a failure. The first one stays, unless a graver one replaces it.
    pub fn record(&mut self, kind: &'static str, reason: String, replace_existing: bool)
        ensures
            final(self).known() == if replace_existing || old(self).known() is None {
                Some(AndroidWgpuDeviceFailure { kind, reason })
            } else {
                old(self).known()
            },
    {
        if replace_existing || self.failure.is_none() {
            self.failure = Some(AndroidWgpuDeviceFailure { kind, reason });
        }
    }

    /// The failure that the device has.
    pub fn failure(&self) -> (failure: Option<&AndroidWgpuDeviceFailure>)
        ensures
            match (failure, self.known()) {
                (Some(failure), Some(known)) => *failure == known,
                (None, None) => true,
                _ => false,
            },
    {
        match &self.failure {
            Some(failure) => Some(failure),
            None => None,
        }
    }

    /// Takes in what came of polling the device, which is done only while it
    /// has no failure. Answers whether it still has none.
    pub fn polled(&mut self, error: Option<String>) -> (healthy: bool)
        requires
            old(self).known() is None,
        ensures
            healthy == (error is None),
            match error {
                None => final(self).known() is None,
                Some(reason) => final(self).known() == Some(
                    AndroidWgpuDeviceFailure { kind: POLL_ERROR, reason },
                ),
            },
            error is Some ==> final(self).known()->0.kind@ == "poll_error"@,
    {
        if let Some(reason) = error {
            self.record(POLL_ERROR, reason, true);
        }
        self.failure.is_none()
    }
}

/// A text for what a panic has carried, where it was one.
pub fn panic_payload_message(payload: Option<String>) -> (message: String)
    ensures
        message@ == match payload {
            Some(text) => text@,
            None => "non-string panic payload"@,
        },
{
    match payload {
        Some(text) => text,
        None => "non-string panic payload".to_owned(),
    }
}

/// How a device is waited for when its renderer goes away.
#[derive(Debug, Clone, Copy, PartialEq, Eq, Structural)]
pub struct DropPoll {
    /// The submission that is waited for, or the last one.
    pub submission: Option<u64>,
    pub timeout: Option<Duration>,
}

/// How long a renderer that goes away waits for its device.
pub const ANDROID_WGPU_DROP_POLL_TIMEOUT_MILLIS: u64 = 100;

/// One bounded wait, so that tearing a renderer down cannot block for ever.
pub fn android_wgpu_drop_poll_type() -> (poll: DropPoll)
    ensures
        poll.submission is None,
        poll.timeout matches Some(timeout) && timeout@ == ANDROID_WGPU_DROP_POLL_TIMEOUT_MILLIS
            * NANOS_PER_MILLI,
        poll.timeout matches Some(timeout) && timeout@ == 100_000_000,
{
    DropPoll {
        submission: None,
        timeout: Some(Duration::from_millis(ANDROID_WGPU_DROP_POLL_TIMEOUT_MILLIS)),
    }
}

/// Which failures of an operation are answered with another device.
#[derive(Debug, Clone, Copy, PartialEq, Eq, Structural)]
pub enum AndroidWgpuRecoveryPolicy {
    AnyRendererFailure,
    DeviceFailureOnly,
}

/// What an operation has returned.
#[derive(Debug, Clone, Copy, PartialEq, Eq, Structural)]
pub enum OperationResult {
    Succeeded,
    RendererError,
    OtherError,
}

/// What came of an operation on the active device.
#[derive(Debug, Clone, Copy, PartialEq, Eq, Structural)]
pub enum OperationEvent {
    /// The device had failed before the operation was started.
    UnhealthyBefore,
    Panicked,
    Returned { result: OperationResult, healthy_after: bool },
}

#[derive(Debug, Clone, Copy, PartialEq, Eq, Structural)]
pub enum OperationVerdict {
    Succeeded,
    /// Another device is to be tried.
    Recoverable,
    /// The error is the caller's.
    Final,
}

pub open spec fn verdict(event: OperationEvent, policy: AndroidWgpuRecoveryPolicy) -> OperationVerdict {
    match event {
        OperationEvent::UnhealthyBefore => OperationVerdict::Recoverable,
        OperationEvent::Panicked => OperationVerdict::Recoverable,
        OperationEvent::Returned { result, healthy_after } => if !healthy_after {
            OperationVerdict::Recoverable
        } else {
            match result {
                OperationResult::Succeeded => OperationVerdict::Succeeded,
                OperationResult::RendererError => if policy
                    == AndroidWgpuRecoveryPolicy::AnyRendererFailure {
                    OperationVerdict::Recoverable
                } else {
                    OperationVerdict::Final
                },
                OperationResult::OtherError => OperationVerdict::Final,
            }
        },
    }
}

/// Judges an operation. One that succeeded on a device which then turned out
/// to have failed has not succeeded.
pub fn judge_operation(event: OperationEvent, policy: AndroidWgpuRecoveryPolicy) -> (judged:
    OperationVerdict)
    ensures
        judged == verdict(event, policy),
{
    match event {
        OperationEvent::UnhealthyBefore => OperationVerdict::Recoverable,
        OperationEvent::Panicked => OperationVerdict::Recoverable,
        OperationEvent::Returned { result, healthy_after } => {
            if !healthy_after {
                return OperationVerdict::Recoverable;
            }
            match result {
                OperationResult::Succeeded => OperationVerdict::Succeeded,
                OperationResult::RendererError => {
                    if policy == AndroidWgpuRecoveryPolicy::AnyRendererFailure {
                        OperationVerdict::Recoverable
                    } else {
                        OperationVerdict::Final
                    }
                },
                OperationResult::OtherError => OperationVerdict::Final,
            }
        },
    }
}

/// What came of restoring the surface or the frame on a new device.
#[derive(Debug, Clone, Copy, PartialEq, Eq, Structural)]
pub enum RestoreEvent {
    /// There was nothing to restore.
    Absent,
    Succeeded { healthy: bool },
    Refused { healthy: bool },
    Panicked,
}

/// Whether a new device can be used. A surface has to be restored; a frame that
/// is refused by a healthy device is waited for instead.
pub open spec fn restored(surface: RestoreEvent, frame: RestoreEvent) -> bool {
    &&& surface == RestoreEvent::Absent || surface == (RestoreEvent::Succeeded { healthy: true })
    &&& frame == RestoreEvent::Absent || frame == (RestoreEvent::Succeeded { healthy: true })
        || frame == (RestoreEvent::Refused { healthy: true })
}

/// What is to be done next in a recovery.
#[derive(Debug, Clone, Copy, PartialEq, Eq, Structural)]
pub enum RecoveryStep {
    /// The operation has succeeded.
    Succeeded,
    /// The operation has failed for good; the device stays.
    Failed,
    /// Another device is to be made.
    Rebuild,
    /// The surface and the frame are to be restored on the new device.
    Restore,
    /// The operation is to be tried on the new device.
    Invoke,
    /// No device is left.
    Exhausted,
}

/// The candidates and failures of one recovery.
#[derive(Debug)]
pub struct RecoveryAttempt {
    attempted: Vec<usize>,
    failures: Vec<usize>,
}

/// A recovery by what it has tried.
pub struct RecoveryAttemptView {
    /// The candidates that were given their chance, in order.
    pub attempted: Seq<usize>,
    /// The candidates that were active at each failure.
    pub failures: Seq<usize>,
}

impl View for RecoveryAttempt {
    type V = RecoveryAttemptView;

    closed spec fn view(&self) -> RecoveryAttemptView {
        RecoveryAttemptView { attempted: self.attempted@, failures: self.failures@ }
    }
}

impl RecoveryAttemptView {
    /// No candidate was given two chances.
    pub open spec fn well_formed(self, candidate_count: usize) -> bool {
        &&& self.attempted.no_duplicates()
        &&& self.attempted.len() > 0
        &&& forall|i: int| 0 <= i < self.attempted.len() ==> self.attempted[i] < candidate_count
    }

    pub open spec fn with_failure(self, candidate: usize) -> Self {
        RecoveryAttemptView { failures: self.failures.push(candidate), ..self }
    }
}

impl RecoveryAttempt {
    /// The candidates that were given their chance.
    pub fn attempted(&self) -> (list: &Vec<usize>)
        ensures
            list@ == self@.attempted,
    {
        &self.attempted
    }

    /// The candidates that were active at each failure.
    pub fn failures(&self) -> (list: &Vec<usize>)
        ensures
            list@ == self@.failures,
    {
        &self.failures
    }
}

/// Candidates that differ from one another still do when one goes.
proof fn lemma_removal_keeps_distinct(candidates: Seq<usize>, at: int)
    requires
        candidates.no_duplicates(),
        0 <= at < candidates.len(),
    ensures
        candidates.remove(at).no_duplicates(),
{
    let rest = candidates.remove(at);
    assert forall|i: int, j: int|
        0 <= i < rest.len() && 0 <= j < rest.len() && i != j implies rest[i] != rest[j] by {
        let a = if i < at {
            i
        } else {
            i + 1
        };
        let b = if j < at {
            j
        } else {
            j + 1
        };
        assert(rest[i] == candidates[a] && rest[j] == candidates[b]);
    }
}

/// As many different candidates as there are cannot leave one out.
proof fn lemma_all_attempted(tried: Seq<usize>, count: nat)
    requires
        tried.no_duplicates(),
        count <= usize::MAX,
        forall|c: usize| c < count ==> #[trigger] tried.contains(c),
    ensures
        tried.len() >= count,
    decreases count,
{
    if count > 0 {
        let last = (count - 1) as usize;
        assert(tried.contains(last));
        let at = tried.index_of(last);
        let rest = tried.remove(at);
        lemma_removal_keeps_distinct(tried, at);
        assert forall|c: usize| c < count - 1 implies #[trigger] rest.contains(c) by {
            assert(tried.contains(c));
            let i = tried.index_of(c);
            assert(i != at);
            let k = if i < at {
                i
            } else {
                i - 1
            };
            assert(rest[k] == c);
        }
        lemma_all_attempted(rest, (count - 1) as nat);
    }
}

/// The order in which a recovery goes on.
pub open spec fn remaining_order(
    candidate_count: usize,
    active: usize,
    tried: Seq<usize>,
) -> Seq<usize> {
    untried(
        rotation(
            candidate_count as nat,
            if active < usize::MAX {
                (active + 1) as nat
            } else {
                active as nat
            },
        ),
        tried,
    )
}

/// While a candidate is left there is one to try.
proof fn lemma_order_is_not_empty(candidate_count: usize, active: usize, tried: Seq<usize>)
    requires
        candidate_count > 0,
        tried.no_duplicates(),
        tried.len() < candidate_count,
    ensures
        remaining_order(candidate_count, active, tried).len() > 0,
{
    let start = if active < usize::MAX {
        (active + 1) as usize
    } else {
        active
    };
    lemma_order_tries_each_untried_candidate_once(candidate_count, start, tried);
    let order = remaining_order(candidate_count, active, tried);
    if order.len() == 0 {
        assert forall|c: usize| c < candidate_count implies #[trigger] tried.contains(c) by {
            assert(!order.contains(c));
        }
        lemma_all_attempted(tried, candidate_count as nat);
    }
}

/// The candidates of an order that were tried are new to a recovery.
proof fn lemma_attempts_are_new(
    candidate_count: usize,
    active: usize,
    tried: Seq<usize>,
    selected: Option<usize>,
)
    requires
        candidate_count > 0,
        tried.no_duplicates(),
        forall|i: int| 0 <= i < tried.len() ==> tried[i] < candidate_count,
        selected matches Some(selected) ==> remaining_order(
            candidate_count,
            active,
            tried,
        ).contains(selected),
    ensures
        ({
            let attempts = attempted(remaining_order(candidate_count, active, tried), selected);
            let all = tried + attempts;
            &&& all.no_duplicates()
            &&& forall|i: int| 0 <= i < all.len() ==> all[i] < candidate_count
            &&& selected matches Some(selected) ==> !tried.contains(selected) && all.contains(
                selected,
            ) && selected < candidate_count
            &&& tried.len() < candidate_count ==> attempts.len() > 0
        }),
{
    let start = if active < usize::MAX {
        (active + 1) as usize
    } else {
        active
    };
    let order = remaining_order(candidate_count, active, tried);
    lemma_order_tries_each_untried_candidate_once(candidate_count, start, tried);
    let attempts = attempted(order, selected);
    if let Some(selected) = selected {
        lemma_attempts_end_with_the_selected_candidate(order, selected);
    }
    assert(attempts.is_prefix_of(order));
    assert forall|i: int| 0 <= i < attempts.len() implies #[trigger] attempts[i] == order[i]
        && !tried.contains(attempts[i]) && attempts[i] < candidate_count by {
        assert(order.contains(order[i]));
    }
    let all = tried + attempts;
    assert(all.no_duplicates()) by {
        assert forall|i: int, j: int|
            0 <= i < all.len() && 0 <= j < all.len() && i != j implies all[i] != all[j] by {
            let n = tried.len() as int;
            if i >= n && j >= n {
                assert(all[i] == attempts[i - n] && all[j] == attempts[j - n]);
            } else if i >= n {
                assert(all[i] == attempts[i - n]);
                assert(tried.contains(all[j]));
            } else if j >= n {
                assert(all[j] == attempts[j - n]);
                assert(tried.contains(all[i]));
            }
        }
    }
    assert forall|i: int| 0 <= i < all.len() implies all[i] < candidate_count by {
        let n = tried.len() as int;
        if i >= n {
            assert(all[i] == attempts[i - n]);
        }
    }
    if let Some(selected) = selected {
        assert(attempts[attempts.len() - 1] == selected);
        assert(all[all.len() - 1] == selected);
    }
    if tried.len() < candidate_count {
        lemma_order_is_not_empty(candidate_count, active, tried);
    }
}

/// The portable GPU backend with a bounded recovery of lost devices.
#[derive(Debug)]
pub struct AndroidRecoveringWgpuRenderer {
    pub active: WgpuRenderer,
    pub candidate_count: usize,
    pub surface: Option<WgpuSurfaceHandle>,
    /// The last frame is kept for a new device.
    pub frame_cached: bool,
    pub output_headroom: OutputHeadroomState,
    pub upscaler_mode: LumaUpscalerMode,
    pub retired_stats: RendererRuntimeStats,
    pub retired_output_status: OutputRuntimeStatus,
    /// Every device has failed; nothing is done until a surface is attached.
    pub terminal_failure: bool,
    pub recovery_sequence: u64,
}

/// The number of the recovery after `sequence`.
pub open spec fn next_sequence(sequence: u64) -> u64 {
    if sequence < u64::MAX {
        (sequence + 1) as u64
    } else {
        sequence
    }
}

impl AndroidRecoveringWgpuRenderer {
    /// The active device came from one of the candidates.
    pub open spec fn well_formed(self) -> bool {
        self.active.candidate_index < self.candidate_count
    }

    pub fn new(active: WgpuRenderer, candidate_count: usize) -> (renderer: Self)
        requires
            active.candidate_index < candidate_count,
        ensures
            renderer == (AndroidRecoveringWgpuRenderer {
                active,
                candidate_count,
                surface: None,
                frame_cached: false,
                output_headroom: OutputHeadroomState::unknown(),
                upscaler_mode: LumaUpscalerMode::Off,
                retired_stats: RendererRuntimeStats::none_yet(),
                retired_output_status: OutputRuntimeStatus::of_request(active.output_mode),
                terminal_failure: false,
                recovery_sequence: 0,
            }),
            renderer.well_formed(),
    {
        AndroidRecoveringWgpuRenderer {
            active,
            candidate_count,
            surface: None,
            frame_cached: false,
            output_headroom: OutputHeadroomState::default(),
            upscaler_mode: LumaUpscalerMode::Off,
            retired_stats: RendererRuntimeStats::default(),
            retired_output_status: OutputRuntimeStatus::requested(active.output_mode),
            terminal_failure: false,
            recovery_sequence: 0,
        }
    }

    /// An operation is to be run. Nothing is run once every device has failed.
    pub fn begin_operation(&self) -> (attempt: Option<RecoveryAttempt>)
        requires
            self.well_formed(),
        ensures
            attempt is None <==> self.terminal_failure,
            attempt matches Some(attempt) ==> {
                &&& attempt@.attempted == seq![self.active.candidate_index]
                &&& attempt@.failures.len() == 0
                &&& attempt@.well_formed(self.candidate_count)
            },
    {
        if self.terminal_failure {
            return None;
        }
        let mut attempted: Vec<usize> = Vec::new();
        attempted.push(self.active.candidate_index);
        assert(attempted@ =~= seq![self.active.candidate_index]);
        Some(RecoveryAttempt { attempted, failures: Vec::new() })
    }

    /// Whether a candidate is left, and what follows from that.
    pub open spec fn goes_on(self, tried: Seq<usize>) -> RecoveryStep {
        if tried.len() < self.candidate_count {
            RecoveryStep::Rebuild
        } else {
            RecoveryStep::Exhausted
        }
    }

    fn go_on(&mut self, attempt: &RecoveryAttempt) -> (step: RecoveryStep)
        ensures
            step == old(self).goes_on(attempt@.attempted),
            *final(self) == (AndroidRecoveringWgpuRenderer {
                terminal_failure: old(self).terminal_failure || step == RecoveryStep::Exhausted,
                ..*old(self)
            }),
    {
        if attempt.attempted.len() < self.candidate_count {
            RecoveryStep::Rebuild
        } else {
            self.terminal_failure = true;
            RecoveryStep::Exhausted
        }
    }

    /// Takes in what came of the operation on the active device.
    pub fn operation_finished(
        &mut self,
        attempt: &mut RecoveryAttempt,
        event: OperationEvent,
        policy: AndroidWgpuRecoveryPolicy,
    ) -> (step: RecoveryStep)
        requires
            old(self).well_formed(),
            old(attempt)@.well_formed(old(self).candidate_count),
        ensures
            final(self).well_formed(),
            final(attempt)@.well_formed(final(self).candidate_count),
            match verdict(event, policy) {
                OperationVerdict::Succeeded => step == RecoveryStep::Succeeded && *final(self)
                    == *old(self) && final(attempt)@ == old(attempt)@,
                OperationVerdict::Final => step == RecoveryStep::Failed && *final(self)
                    == *old(self) && final(attempt)@ == old(attempt)@,
                OperationVerdict::Recoverable => {
                    &&& step == old(self).goes_on(old(attempt)@.attempted)
                    &&& final(attempt)@ == old(attempt)@.with_failure(
                        old(self).active.candidate_index,
                    )
                    &&& *final(self) == (AndroidRecoveringWgpuRenderer {
                        recovery_sequence: next_sequence(old(self).recovery_sequence),
                        terminal_failure: old(self).terminal_failure || step
                            == RecoveryStep::Exhausted,
                        ..*old(self)
                    })
                },
            },
    {
        match judge_operation(event, policy) {
            OperationVerdict::Succeeded => RecoveryStep::Succeeded,
            OperationVerdict::Final => RecoveryStep::Failed,
            OperationVerdict::Recoverable => {
                attempt.failures.push(self.active.candidate_index);
                self.recovery_sequence = self.recovery_sequence.saturating_add(1);
                self.go_on(attempt)
            },
        }
    }

    /// The candidates that are left, in the order in which they are tried.
    pub fn rebuild_order(&self, attempt: &RecoveryAttempt) -> (order: Vec<usize>)
        requires
            self.well_formed(),
            attempt@.well_formed(self.candidate_count),
            attempt@.attempted.len() < self.candidate_count,
        ensures
            order@ == remaining_order(
                self.candidate_count,
                self.active.candidate_index,
                attempt@.attempted,
            ),
            order@.len() > 0,
    {
        proof {
            lemma_order_is_not_empty(
                self.candidate_count,
                self.active.candidate_index,
                attempt@.attempted,
            );
        }
        recovery_candidate_order(
            self.candidate_count,
            self.active.candidate_index,
            attempt.attempted.as_slice(),
        )
    }

    /// Making a device has panicked: the recovery ends.
    pub fn construction_panicked(&mut self, attempt: &mut RecoveryAttempt) -> (step: RecoveryStep)
        requires
            old(self).well_formed(),
        ensures
            step == RecoveryStep::Exhausted,
            final(attempt)@ == old(attempt)@.with_failure(old(self).active.candidate_index),
            *final(self) == (AndroidRecoveringWgpuRenderer { terminal_failure: true, ..*old(self) }),
    {
        attempt.failures.push(self.active.candidate_index);
        self.terminal_failure = true;
        RecoveryStep::Exhausted
    }

    /// The renderer with a new active device. What the old one has counted is
    /// kept; the upscaler and the display's headroom are set again.
    pub open spec fn with_replacement<
        M: Fn(FloatBits, FloatBits) -> FloatBits,
        N: Fn(FloatBits, FloatBits) -> FloatBits,
    >(self, device: DeviceOutcome, upscaler: UpscalerReport, multiply: M, distance: N) -> Self {
        let fresh = WgpuRenderer {
            upscaler_mode: self.upscaler_mode,
            ..WgpuRenderer::of_device(
                self.active.platform,
                device,
                self.active.output_mode,
                self.active.video_has_alpha,
            )
        };
        let same = fresh.output_headroom.known == self.output_headroom.known && same_headroom(
            distance,
            fresh.output_headroom.headroom,
            self.output_headroom.headroom,
        );
        AndroidRecoveringWgpuRenderer {
            active: if same {
                fresh
            } else {
                fresh.with_headroom(self.output_headroom, false, multiply)
            },
            retired_stats: with_retired_stats(
                self.retired_stats,
                self.active.runtime_report(upscaler),
            ),
            retired_output_status: with_retired_counters(
                self.retired_output_status,
                self.active.output_status,
            ),
            ..self
        }
    }

    /// The candidates of an order were tried, and one of them may have a
    /// device. Without one the recovery ends.
    pub fn construction_finished<
        M: Fn(FloatBits, FloatBits) -> FloatBits,
        N: Fn(FloatBits, FloatBits) -> FloatBits,
    >(
        &mut self,
        attempt: &mut RecoveryAttempt,
        replacement: Option<DeviceOutcome>,
        upscaler: UpscalerReport,
        multiply: &M,
        distance: &N,
    ) -> (step: RecoveryStep)
        requires
            is_product(*multiply),
            is_headroom_distance(*distance),
            old(self).well_formed(),
            old(attempt)@.well_formed(old(self).candidate_count),
            old(attempt)@.attempted.len() < old(self).candidate_count,
            replacement matches Some(device) ==> remaining_order(
                old(self).candidate_count,
                old(self).active.candidate_index,
                old(attempt)@.attempted,
            ).contains(device.candidate_index),
        ensures
            final(self).well_formed(),
            final(attempt)@.well_formed(final(self).candidate_count),
            ({
                let selected = match replacement {
                    Some(device) => Some(device.candidate_index),
                    None => None,
                };
                let attempts = attempted(
                    remaining_order(
                        old(self).candidate_count,
                        old(self).active.candidate_index,
                        old(attempt)@.attempted,
                    ),
                    selected,
                );
                final(attempt)@.attempted == old(attempt)@.attempted + attempts
            }),
            final(attempt)@.attempted.len() > old(attempt)@.attempted.len(),
            match replacement {
                None => {
                    &&& step == RecoveryStep::Exhausted
                    &&& final(attempt)@.failures == old(attempt)@.failures.push(
                        old(self).active.candidate_index,
                    )
                    &&& *final(self) == (AndroidRecoveringWgpuRenderer {
                        terminal_failure: true,
                        ..*old(self)
                    })
                },
                Some(device) => {
                    &&& step == RecoveryStep::Restore
                    &&& !old(attempt)@.attempted.contains(device.candidate_index)
                    &&& final(attempt)@.attempted.contains(device.candidate_index)
                    &&& final(attempt)@.failures == old(attempt)@.failures
                    &&& *final(self) == old(self).with_replacement(
                        device,
                        upscaler,
                        *multiply,
                        *distance,
                    )
                },
            },
    {
        let order: Vec<usize> = self.rebuild_order(attempt);
        let selected: Option<usize> = match replacement {
            Some(device) => Some(device.candidate_index),
            None => None,
        };
        let attempts: Vec<usize> = attempted_candidate_prefix(order.as_slice(), selected);
        proof {
            lemma_attempts_are_new(
                self.candidate_count,
                self.active.candidate_index,
                attempt@.attempted,
                selected,
            );
        }
        let ghost before = attempt@.attempted;
        let ghost count = self.candidate_count;
        let mut i: usize = 0;
        while i < attempts.len()
            invariant
                i <= attempts@.len(),
                attempt.attempted@ == before + attempts@.take(i as int),
                attempt.failures@ == old(attempt)@.failures,
            decreases attempts@.len() - i,
        {
            attempt.attempted.push(attempts[i]);
            assert(attempt.attempted@ =~= before + attempts@.take(i + 1));
            i = i + 1;
        }
        assert(attempts@.take(i as int) =~= attempts@);
        assert(attempt.attempted@ == before + attempts@);
        match replacement {
            None => {
                attempt.failures.push(self.active.candidate_index);
                self.terminal_failure = true;
                RecoveryStep::Exhausted
            },
            Some(device) => {
                accumulate_retired_renderer_stats(
                    &mut self.retired_stats,
                    self.active.runtime_stats(upscaler),
                );
                accumulate_retired_output_status(
                    &mut self.retired_output_status,
                    self.active.output_status(),
                );
                let mut fresh: WgpuRenderer = WgpuRenderer::new(
                    self.active.platform,
                    device,
                    self.active.output_mode,
                    self.active.video_has_alpha,
                );
                fresh.upscaler_mode = self.upscaler_mode;
                fresh.update_output_headroom_state(self.output_headroom, false, multiply, distance);
                self.active = fresh;
                RecoveryStep::Restore
            },
        }
    }

    /// Takes in what came of restoring the surface and the frame on the new
    /// device.
    pub fn restore_finished(
        &mut self,
        attempt: &mut RecoveryAttempt,
        surface: RestoreEvent,
        frame: RestoreEvent,
    ) -> (step: RecoveryStep)
        requires
            old(self).well_formed(),
            old(attempt)@.well_formed(old(self).candidate_count),
        ensures
            final(self).well_formed(),
            final(attempt)@.well_formed(final(self).candidate_count),
            if restored(surface, frame) {
                &&& step == RecoveryStep::Invoke
                &&& *final(self) == *old(self)
                &&& final(attempt)@ == old(attempt)@
            } else {
                &&& step == old(self).goes_on(old(attempt)@.attempted)
                &&& final(attempt)@ == old(attempt)@.with_failure(
                    old(self).active.candidate_index,
                )
                &&& *final(self) == (AndroidRecoveringWgpuRenderer {
                    terminal_failure: old(self).terminal_failure || step == RecoveryStep::Exhausted,
                    ..*old(self)
                })
            },
    {
        let surface_restored: bool = match surface {
            RestoreEvent::Absent => true,
            RestoreEvent::Succeeded { healthy } => healthy,
            _ => false,
        };
        let frame_usable: bool = match frame {
            RestoreEvent::Absent => true,
            RestoreEvent::Succeeded { healthy } => healthy,
            RestoreEvent::Refused { healthy } => healthy,
            RestoreEvent::Panicked => false,
        };
        if surface_restored && frame_usable {
            return RecoveryStep::Invoke;
        }
        attempt.failures.push(self.active.candidate_index);
        self.go_on(attempt)
    }

    /// Whether a surface can be attached. One that can starts a fresh recovery.
    pub fn begin_attach(&mut self, surface: PlatformSurface) -> (checked: Result<
        WgpuSurfaceHandle,
        SurfaceError,
    >)
        ensures
            checked == match surface {
                PlatformSurface::Wgpu { handle } => if handle.kind
                    != WgpuSurfaceKind::AndroidNativeWindow {
                    Err::<WgpuSurfaceHandle, SurfaceError>(
                        SurfaceError::KindNotWired { kind: handle.kind },
                    )
                } else if handle.raw_window == 0 {
                    Err::<WgpuSurfaceHandle, SurfaceError>(
                        SurfaceError::NullWindow { kind: handle.kind },
                    )
                } else {
                    Ok::<WgpuSurfaceHandle, SurfaceError>(handle)
                },
                _ => Err::<WgpuSurfaceHandle, SurfaceError>(SurfaceError::NotWgpu),
            },
            *final(self) == if checked is Ok {
                AndroidRecoveringWgpuRenderer { terminal_failure: false, ..*old(self) }
            } else {
                *old(self)
            },
    {
        match surface {
            PlatformSurface::Wgpu { handle } => {
                if handle.kind != WgpuSurfaceKind::AndroidNativeWindow {
                    return Err(SurfaceError::KindNotWired { kind: handle.kind });
                }
                if handle.raw_window == 0 {
                    return Err(SurfaceError::NullWindow { kind: handle.kind });
                }
                self.terminal_failure = false;
                Ok(handle)
            },
            _ => Err(SurfaceError::NotWgpu),
        }
    }

    /// The active device has the surface: a new device will get it too.
    pub fn attached(&mut self, handle: WgpuSurfaceHandle)
        ensures
            *final(self) == (AndroidRecoveringWgpuRenderer { surface: Some(handle), ..*old(self) }),
    {
        self.surface = Some(handle);
    }

    /// The surface is gone, and with it what kept a recovery from starting.
    pub fn detach_surface(&mut self)
        ensures
            *final(self) == (AndroidRecoveringWgpuRenderer {
                active: WgpuRenderer {
                    surface: None,
                    stats: WgpuRendererStats { attached: false, ..old(self).active.stats },
                    output_status: detached_status(old(self).active.output_status),
                    ..old(self).active
                },
                surface: None,
                terminal_failure: false,
                ..*old(self)
            }),
    {
        self.active.detach_surface();
        self.surface = None;
        self.terminal_failure = false;
    }

    /// The active device has resized the surface.
    pub fn resized(&mut self, metrics: SurfaceMetrics)
        ensures
            *final(self) == (AndroidRecoveringWgpuRenderer {
                surface: match old(self).surface {
                    Some(handle) => Some(WgpuSurfaceHandle { size: metrics, ..handle }),
                    None => None,
                },
                ..*old(self)
            }),
    {
        if let Some(handle) = self.surface {
            let mut resized: WgpuSurfaceHandle = handle;
            resized.resize(metrics);
            self.surface = Some(resized);
        }
    }

    /// The active device has a frame; `retained` says whether it could be kept
    /// for a new device.
    pub fn frame_uploaded(&mut self, retained: bool)
        ensures
            *final(self) == (AndroidRecoveringWgpuRenderer {
                frame_cached: retained,
                ..*old(self)
            }),
    {
        self.frame_cached = retained;
    }

    /// The frame is about to be cleared. A recovery on the way must not bring
    /// it back, so it is released first.
    pub fn release_frame(&mut self)
        ensures
            *final(self) == (AndroidRecoveringWgpuRenderer { frame_cached: false, ..*old(self) }),
    {
        self.frame_cached = false;
    }

    /// The decoder is about to be reopened: what it owns of the frame is
    /// released, and the active device keeps its own copy.
    pub fn preserve_current_frame_for_transition(&mut self)
        ensures
            *final(self) == (AndroidRecoveringWgpuRenderer { frame_cached: false, ..*old(self) }),
    {
        self.frame_cached = false;
        self.active.preserve_current_frame_for_transition();
    }

    /// Another track is about to be selected; the frame is kept as above.
    pub fn preserve_current_frame_for_track_transition(&mut self)
        ensures
            *final(self) == (AndroidRecoveringWgpuRenderer { frame_cached: false, ..*old(self) }),
    {
        self.frame_cached = false;
        self.active.preserve_current_frame_for_track_transition();
    }

    /// Another upscaler is asked for, of this device and of those to come.
    /// Answers whether the device's has to be switched.
    pub fn set_luma_upscaler(
        &mut self,
        mode: LumaUpscalerMode,
        device_mode: LumaUpscalerMode,
        status: LumaUpscalerBackendStatus,
    ) -> (switch: bool)
        ensures
            switch == upscaler_switch_needed(
                old(self).active.upscaler_mode,
                mode,
                device_mode,
                status,
            ),
            *final(self) == (AndroidRecoveringWgpuRenderer {
                upscaler_mode: mode,
                active: if switch {
                    WgpuRenderer {
                        upscaler_mode: mode,
                        upscaler_failed_frame_token: None,
                        ..old(self).active
                    }
                } else {
                    old(self).active
                },
                ..*old(self)
            }),
    {
        self.upscaler_mode = mode;
        self.active.set_luma_upscaler(mode, device_mode, status)
    }

    /// The display has reported its headroom, which is kept for the devices to
    /// come.
    pub fn set_output_headroom<
        M: Fn(FloatBits, FloatBits) -> FloatBits,
        N: Fn(FloatBits, FloatBits) -> FloatBits,
    >(&mut self, headroom: FloatBits, known: bool, multiply: &M, distance: &N)
        requires
            is_product(*multiply),
            is_headroom_distance(*distance),
        ensures
            ({
                let state = OutputHeadroomState::of_report(headroom, known);
                *final(self) == (AndroidRecoveringWgpuRenderer {
                    output_headroom: state,
                    active: if old(self).active.output_headroom.known == state.known
                        && same_headroom(
                        *distance,
                        old(self).active.output_headroom.headroom,
                        state.headroom,
                    ) {
                        old(self).active
                    } else {
                        old(self).active.with_headroom(state, true, *multiply)
                    },
                    ..*old(self)
                })
            }),
    {
        self.output_headroom = OutputHeadroomState::reported(headroom, known);
        self.active.update_output_headroom_state(self.output_headroom, true, multiply, distance);
    }

    /// The statistics of all devices there were, with the states of the active
    /// one.
    pub fn runtime_stats(&self, upscaler: UpscalerReport) -> (stats: RendererRuntimeStats)
        ensures
            stats == with_retired_stats(self.active.runtime_report(upscaler), self.retired_stats),
    {
        let mut stats: RendererRuntimeStats = self.active.runtime_stats(upscaler);
        add_retired_renderer_stats(&mut stats, self.retired_stats);
        stats
    }

    pub fn output_status(&self) -> (status: OutputRuntimeStatus)
        ensures
            status == with_retired_counters(self.active.output_status, self.retired_output_status),
    {
        let mut status: OutputRuntimeStatus = self.active.output_status();
        add_retired_output_counters(&mut status, self.retired_output_status);
        status
    }
}

/// Replacing a device loses no frame from the statistics: what is reported
/// right after is what was reported right before, with the new device's states.
pub proof fn lemma_replacement_keeps_the_counters<
    M: Fn(FloatBits, FloatBits) -> FloatBits,
    N: Fn(FloatBits, FloatBits) -> FloatBits,
>(
    renderer: AndroidRecoveringWgpuRenderer,
    device: DeviceOutcome,
    upscaler: UpscalerReport,
    fresh: UpscalerReport,
    multiply: M,
    distance: N,
)
    requires
        fresh.fallback_count == 0,
        fresh.upscaled_frames == 0,
    ensures
        ({
            let before = with_retired_stats(
                renderer.active.runtime_report(upscaler),
                renderer.retired_stats,
            );
            let replaced = renderer.with_replacement(device, upscaler, multiply, distance);
            let after = with_retired_stats(
                replaced.active.runtime_report(fresh),
                replaced.retired_stats,
            );
            &&& after.rendered_frames == before.rendered_frames
            &&& after.offscreen_frames == before.offscreen_frames
            &&& after.software_video_frames == before.software_video_frames
            &&& after.hardware_video_frames == before.hardware_video_frames
            &&& after.zero_copy_video_frames == before.zero_copy_video_frames
            &&& after.shared_handle_video_frames == before.shared_handle_video_frames
            &&& after.cpu_video_frame_fallbacks == before.cpu_video_frame_fallbacks
            &&& after.hdr_source_frames == before.hdr_source_frames
            &&& after.sdr_tonemap_frames == before.sdr_tonemap_frames
            &&& after.danmaku_passes == before.danmaku_passes
            &&& after.danmaku_draw_items == before.danmaku_draw_items
            &&& after.upscaler_fallbacks == before.upscaler_fallbacks
            &&& after.upscaled_frames == before.upscaled_frames
        }),
{
}

/// A recovery is bounded: it has given each candidate at most one chance, so it
/// never makes more devices than there are candidates.
pub proof fn lemma_recovery_is_bounded(attempt: RecoveryAttemptView, candidate_count: usize)
    requires
        attempt.well_formed(candidate_count),
    ensures
        attempt.attempted.len() <= candidate_count,
{
    lemma_bounded(attempt.attempted, candidate_count as nat);
}

proof fn lemma_bounded(tried: Seq<usize>, count: nat)
    requires
        tried.no_duplicates(),
        count <= usize::MAX,
        forall|i: int| 0 <= i < tried.len() ==> tried[i] < count,
    ensures
        tried.len() <= count,
    decreases count,
{
    if count == 0 {
        if tried.len() > 0 {
            assert(tried[0] < 0);
        }
    } else {
        let last = (count - 1) as usize;
        if tried.contains(last) {
            let at = tried.index_of(last);
            let rest = tried.remove(at);
            lemma_removal_keeps_distinct(tried, at);
            assert forall|i: int| 0 <= i < rest.len() implies rest[i] < count - 1 by {
                let a = if i < at {
                    i
                } else {
                    i + 1
                };
                assert(rest[i] == tried[a]);
                assert(tried[a] != tried[at]);
            }
            lemma_bounded(rest, (count - 1) as nat);
        } else {
            assert forall|i: int| 0 <= i < tried.len() implies tried[i] < count - 1 by {
                assert(tried.contains(tried[i]));
            }
            lemma_bounded(tried, (count - 1) as nat);
        }
    }
}

} // verus!
