//! What a surface shows: the requested mode, the encoding that is active and
//! why it may be another one.

use crate::color::ColorPrimaries;
use crate::float::{at_least, is_above, larger_of, FloatBits, INFINITY, ONE};
use crate::renderer::pipeline::{is_product, TargetColorState};
use vstd::prelude::*;

verus! {

/// Reference white of the extended linear scRGB encoding, 80 nits.
pub const SCRGB_WHITE_NITS: FloatBits = 0x42a0_0000;

/// The largest headroom that a display is believed to have, 10000.
pub const MAX_HEADROOM: FloatBits = 0x461c_4000;

/// How the output is asked to be encoded.
#[derive(Debug, Clone, Copy, PartialEq, Eq, Structural)]
pub enum OutputMode {
    Sdr,
    Auto { headroom: FloatBits },
    AppleEdr { headroom: FloatBits },
    ExtendedLinear { headroom: FloatBits },
}

impl OutputMode {
    pub fn apple_edr(headroom: FloatBits) -> (mode: Self)
        ensures
            mode == (OutputMode::AppleEdr { headroom }),
    {
        OutputMode::AppleEdr { headroom }
    }

    pub fn extended_linear(headroom: FloatBits) -> (mode: Self)
        ensures
            mode == (OutputMode::ExtendedLinear { headroom }),
    {
        OutputMode::ExtendedLinear { headroom }
    }

    /// The headroom that a mode asks for.
    pub open spec fn requested_headroom(self) -> FloatBits {
        match self {
            OutputMode::Sdr => ONE,
            OutputMode::Auto { headroom } => headroom,
            OutputMode::AppleEdr { headroom } => headroom,
            OutputMode::ExtendedLinear { headroom } => headroom,
        }
    }

    pub fn headroom(&self) -> (headroom: FloatBits)
        ensures
            headroom == self.requested_headroom(),
    {
        match self {
            OutputMode::Sdr => ONE,
            OutputMode::Auto { headroom } => *headroom,
            OutputMode::AppleEdr { headroom } => *headroom,
            OutputMode::ExtendedLinear { headroom } => *headroom,
        }
    }

    pub fn is_android_extended_linear(&self) -> (extended: bool)
        ensures
            extended == (self is ExtendedLinear),
    {
        match self {
            OutputMode::ExtendedLinear { .. } => true,
            _ => false,
        }
    }
}

/// Why an output is not encoded as it was asked to be.
#[derive(Debug, Clone, Copy, PartialEq, Eq, Structural)]
pub enum OutputFallbackReason {
    NotNeeded,
    LegacyAppleEdrUnsupported,
    DisplayHdrUnsupported,
    HybridCompositionRequired,
    WgpuBackendNotVulkan,
    Rgba16FloatSurfaceFormatUnavailable,
    NativeWindowDataSpaceApiUnavailable,
    ScrgbDataSpaceVerificationFailed,
}

/// What a surface and its display can show.
#[derive(Debug, Clone, Copy, PartialEq, Eq, Structural)]
pub struct SurfaceOutputCapabilities {
    pub extended_linear: bool,
    pub direct_composition: bool,
    pub desired_headroom: FloatBits,
    pub fallback_reason: OutputFallbackReason,
}

#[derive(Debug, Clone, Copy, PartialEq, Eq, Structural)]
pub enum OutputSurfaceFormat {
    EightBitUnorm,
    TenBitUnorm,
    SixteenBitFloat,
}

#[derive(Debug, Clone, Copy, PartialEq, Eq, Structural)]
pub enum ActiveOutputEncoding {
    SdrSrgb,
    Hdr10Pq,
    AndroidExtendedLinearScRgb,
}

/// An output encoding and the colours that frames are converted to for it.
#[derive(Debug, Clone, Copy, PartialEq, Eq, Structural)]
pub struct OutputDescription {
    pub extended_linear: bool,
    pub target: TargetColorState,
    pub surface_format: OutputSurfaceFormat,
}

impl OutputDescription {
    pub open spec fn of_sdr() -> Self {
        OutputDescription {
            extended_linear: false,
            target: TargetColorState::of_sdr(ColorPrimaries::Bt709),
            surface_format: OutputSurfaceFormat::EightBitUnorm,
        }
    }

    pub open spec fn of_extended_linear<M: Fn(FloatBits, FloatBits) -> FloatBits>(
        headroom: FloatBits,
        multiply: M,
    ) -> Self {
        OutputDescription {
            extended_linear: true,
            target: TargetColorState::of_extended_linear(
                ColorPrimaries::Bt709,
                SCRGB_WHITE_NITS,
                headroom,
                multiply,
            ),
            surface_format: OutputSurfaceFormat::SixteenBitFloat,
        }
    }

    pub fn sdr() -> (output: Self)
        ensures
            output == OutputDescription::of_sdr(),
    {
        OutputDescription {
            extended_linear: false,
            target: TargetColorState::sdr(ColorPrimaries::Bt709),
            surface_format: OutputSurfaceFormat::EightBitUnorm,
        }
    }

    /// Extended linear scRGB with the given headroom over reference white.
    pub fn extended_linear<M: Fn(FloatBits, FloatBits) -> FloatBits>(
        headroom: FloatBits,
        multiply: &M,
    ) -> (output: Self)
        requires
            is_product(*multiply),
        ensures
            output == OutputDescription::of_extended_linear(headroom, *multiply),
    {
        OutputDescription {
            extended_linear: true,
            target: TargetColorState::extended_linear(
                ColorPrimaries::Bt709,
                SCRGB_WHITE_NITS,
                headroom,
                multiply,
            ),
            surface_format: OutputSurfaceFormat::SixteenBitFloat,
        }
    }
}

/// The headroom that a display has reported.
#[derive(Debug, Clone, Copy, PartialEq, Eq, Structural)]
pub struct OutputHeadroomState {
    pub headroom: FloatBits,
    pub known: bool,
}

impl OutputHeadroomState {
    pub open spec fn unknown() -> Self {
        OutputHeadroomState { headroom: ONE, known: false }
    }

    /// A report counts where it is known, finite and not below one; it is
    /// capped.
    pub open spec fn of_report(headroom: FloatBits, known: bool) -> Self {
        if known && ONE <= headroom < INFINITY {
            OutputHeadroomState {
                headroom: if headroom < MAX_HEADROOM {
                    headroom
                } else {
                    MAX_HEADROOM
                },
                known: true,
            }
        } else {
            OutputHeadroomState::unknown()
        }
    }

    pub fn reported(headroom: FloatBits, known: bool) -> (state: Self)
        ensures
            state == OutputHeadroomState::of_report(headroom, known),
    {
        if known && ONE <= headroom && headroom < INFINITY {
            OutputHeadroomState {
                headroom: if headroom < MAX_HEADROOM {
                    headroom
                } else {
                    MAX_HEADROOM
                },
                known: true,
            }
        } else {
            OutputHeadroomState { headroom: ONE, known: false }
        }
    }
}

impl Default for OutputHeadroomState {
    fn default() -> (state: Self)
        ensures
            state == OutputHeadroomState::unknown(),
    {
        OutputHeadroomState { headroom: ONE, known: false }
    }
}

/// The smaller of two numbers that are not below one.
pub open spec fn smaller(left: FloatBits, right: FloatBits) -> FloatBits {
    if right < left {
        right
    } else {
        left
    }
}

/// The headroom that content may use: what was asked for, within what the
/// surface wishes and the display has. A display that reports a headroom of
/// exactly one has often not seen a bright frame yet, so that does not count.
pub open spec fn effective_headroom(
    requested: OutputMode,
    capabilities: SurfaceOutputCapabilities,
    display: OutputHeadroomState,
) -> FloatBits {
    let asked = at_least(requested.requested_headroom(), ONE);
    let wished = if ONE <= capabilities.desired_headroom < INFINITY {
        smaller(asked, capabilities.desired_headroom)
    } else {
        asked
    };
    if display.known && is_above(display.headroom, ONE) {
        smaller(wished, display.headroom)
    } else {
        wished
    }
}

/// The headroom that content of an extended linear output may use.
pub fn effective_extended_linear_headroom(
    requested: OutputMode,
    capabilities: SurfaceOutputCapabilities,
    display: OutputHeadroomState,
) -> (headroom: FloatBits)
    ensures
        headroom == effective_headroom(requested, capabilities, display),
{
    let mut headroom: FloatBits = larger_of(requested.headroom(), ONE);
    if ONE <= capabilities.desired_headroom && capabilities.desired_headroom < INFINITY {
        if capabilities.desired_headroom < headroom {
            headroom = capabilities.desired_headroom;
        }
    }
    if display.known && ONE < display.headroom && display.headroom <= INFINITY {
        if display.headroom < headroom {
            headroom = display.headroom;
        }
    }
    headroom
}

/// Content never uses less than reference white nor more than was asked for,
/// wished by the surface or reported by the display.
pub proof fn lemma_effective_headroom_is_bounded(
    requested: OutputMode,
    capabilities: SurfaceOutputCapabilities,
    display: OutputHeadroomState,
)
    ensures
        ({
            let headroom = effective_headroom(requested, capabilities, display);
            &&& ONE <= headroom <= INFINITY
            &&& headroom <= at_least(requested.requested_headroom(), ONE)
            &&& ONE <= capabilities.desired_headroom < INFINITY ==> headroom
                <= capabilities.desired_headroom
            &&& display.known && is_above(display.headroom, ONE) ==> headroom <= display.headroom
        }),
{
}

/// What is to be told of an output.
#[derive(Debug, Clone, Copy, PartialEq, Eq, Structural)]
pub struct OutputRuntimeStatus {
    pub requested_mode: OutputMode,
    pub active_encoding: ActiveOutputEncoding,
    pub surface_format: OutputSurfaceFormat,
    /// The window's data space, or -1 where it is not known.
    pub native_data_space: i32,
    pub requested_headroom: FloatBits,
    pub active_headroom: FloatBits,
    pub active_headroom_known: bool,
    pub extended_linear_active: bool,
    pub fallback_reason: OutputFallbackReason,
    pub fallback_count: u64,
    pub data_space_failures: u64,
    pub headroom_updates: u64,
    pub extended_linear_frames: u64,
}

impl OutputRuntimeStatus {
    pub open spec fn of_request(mode: OutputMode) -> Self {
        OutputRuntimeStatus {
            requested_mode: mode,
            active_encoding: ActiveOutputEncoding::SdrSrgb,
            surface_format: OutputSurfaceFormat::EightBitUnorm,
            native_data_space: -1i32,
            requested_headroom: mode.requested_headroom(),
            active_headroom: ONE,
            active_headroom_known: false,
            extended_linear_active: false,
            fallback_reason: OutputFallbackReason::NotNeeded,
            fallback_count: 0,
            data_space_failures: 0,
            headroom_updates: 0,
            extended_linear_frames: 0,
        }
    }

    /// The status of an output that is not attached to anything yet.
    pub fn requested(mode: OutputMode) -> (status: Self)
        ensures
            status == OutputRuntimeStatus::of_request(mode),
    {
        OutputRuntimeStatus {
            requested_mode: mode,
            active_encoding: ActiveOutputEncoding::SdrSrgb,
            surface_format: OutputSurfaceFormat::EightBitUnorm,
            native_data_space: -1,
            requested_headroom: mode.headroom(),
            active_headroom: ONE,
            active_headroom_known: false,
            extended_linear_active: false,
            fallback_reason: OutputFallbackReason::NotNeeded,
            fallback_count: 0,
            data_space_failures: 0,
            headroom_updates: 0,
            extended_linear_frames: 0,
        }
    }
}

/// A counter that stays at its largest value.
pub open spec fn sum_capped(left: u64, right: u64) -> u64 {
    if left + right <= u64::MAX {
        (left + right) as u64
    } else {
        u64::MAX
    }
}

/// A status with the counters of a retired output added to its own.
pub open spec fn with_retired_counters(
    status: OutputRuntimeStatus,
    retired: OutputRuntimeStatus,
) -> OutputRuntimeStatus {
    OutputRuntimeStatus {
        fallback_count: sum_capped(status.fallback_count, retired.fallback_count),
        data_space_failures: sum_capped(status.data_space_failures, retired.data_space_failures),
        headroom_updates: sum_capped(status.headroom_updates, retired.headroom_updates),
        extended_linear_frames: sum_capped(
            status.extended_linear_frames,
            retired.extended_linear_frames,
        ),
        ..status
    }
}

/// Adds the counters of a retired output; what is active stays as it is.
pub fn add_retired_output_counters(target: &mut OutputRuntimeStatus, retired: OutputRuntimeStatus)
    ensures
        *final(target) == with_retired_counters(*old(target), retired),
{
    target.fallback_count = target.fallback_count.saturating_add(retired.fallback_count);
    target.data_space_failures =
    target.data_space_failures.saturating_add(retired.data_space_failures);
    target.headroom_updates = target.headroom_updates.saturating_add(retired.headroom_updates);
    target.extended_linear_frames =
    target.extended_linear_frames.saturating_add(retired.extended_linear_frames);
}

/// Adds the counters of an output that is being retired to those retired
/// before.
pub fn accumulate_retired_output_status(
    retired: &mut OutputRuntimeStatus,
    current: OutputRuntimeStatus,
)
    ensures
        *final(retired) == with_retired_counters(*old(retired), current),
{
    add_retired_output_counters(retired, current);
}

/// A mode asks for the headroom that it names; standard output names none and asks
/// for one.
pub proof fn lemma_modes_ask_for_what_they_name(headroom: FloatBits)
    ensures
        OutputMode::Sdr.requested_headroom() == 0x3f80_0000,
        (OutputMode::Auto { headroom }).requested_headroom() == headroom,
        (OutputMode::AppleEdr { headroom }).requested_headroom() == headroom,
        (OutputMode::ExtendedLinear { headroom }).requested_headroom() == headroom,
{
}

/// What a display reports of its headroom counts where it is known, a finite number
/// and one at least; it counts up to ten thousand. Anything else is not known, and
/// stands at one.
pub proof fn lemma_reported_headroom_counts_within_bounds(headroom: FloatBits, known: bool)
    ensures
        ({
            let state = OutputHeadroomState::of_report(headroom, known);
            let counts = known && 0x3f80_0000 <= headroom < 0x7f80_0000;
            &&& state.known <==> counts
            &&& counts && headroom <= 0x461c_4000 ==> state.headroom == headroom
            &&& counts && headroom > 0x461c_4000 ==> state.headroom == 0x461c_4000
            &&& !counts ==> state.headroom == 0x3f80_0000
        }),
{
}

/// The headroom that is used is the least of what was asked for, what the surface
/// wishes for where it wishes for any, and what the display has where that is known:
/// it is one of these and above none of them.
pub proof fn lemma_effective_headroom_is_the_least(
    requested: OutputMode,
    capabilities: SurfaceOutputCapabilities,
    display: OutputHeadroomState,
)
    ensures
        ({
            let headroom = effective_headroom(requested, capabilities, display);
            let named = requested.requested_headroom();
            let asked = if 0x3f80_0000 < named <= 0x7f80_0000 {
                named
            } else {
                0x3f80_0000
            };
            let wishes = 0x3f80_0000 <= capabilities.desired_headroom < 0x7f80_0000;
            let shows = display.known && 0x3f80_0000 < display.headroom <= 0x7f80_0000;
            &&& headroom <= asked
            &&& wishes ==> headroom <= capabilities.desired_headroom
            &&& shows ==> headroom <= display.headroom
            &&& headroom == asked || (wishes && headroom == capabilities.desired_headroom) || (
            shows && headroom == display.headroom)
        }),
{
}

/// Standard output is eight bits of sRGB in BT.709. Extended linear output is sixteen
/// bits of floats in BT.709 with its white at 80 nits.
pub proof fn lemma_outputs_have_their_formats<M: Fn(FloatBits, FloatBits) -> FloatBits>(
    headroom: FloatBits,
    multiply: M,
)
    ensures
        ({
            let standard = OutputDescription::of_sdr();
            &&& !standard.extended_linear
            &&& standard.surface_format == OutputSurfaceFormat::EightBitUnorm
            &&& standard.target == TargetColorState::of_sdr(ColorPrimaries::Bt709)
        }),
        ({
            let linear = OutputDescription::of_extended_linear(headroom, multiply);
            &&& linear.extended_linear
            &&& linear.surface_format == OutputSurfaceFormat::SixteenBitFloat
            &&& linear.target.primaries == ColorPrimaries::Bt709
            &&& linear.target.reference_white_nits == 0x42a0_0000
            &&& linear.target.edr_headroom == at_least(headroom, 0x3f80_0000)
        }),
{
}

/// An output that is attached to nothing yet is told as standard, with what was asked
/// for beside it and nothing counted.
pub proof fn lemma_unattached_output_is_standard(mode: OutputMode)
    ensures
        ({
            let status = OutputRuntimeStatus::of_request(mode);
            &&& status.requested_mode == mode
            &&& status.requested_headroom == mode.requested_headroom()
            &&& status.active_encoding == ActiveOutputEncoding::SdrSrgb
            &&& status.surface_format == OutputSurfaceFormat::EightBitUnorm
            &&& status.native_data_space == -1
            &&& status.active_headroom == 0x3f80_0000
            &&& !status.active_headroom_known
            &&& !status.extended_linear_active
            &&& status.fallback_reason == OutputFallbackReason::NotNeeded
            &&& status.fallback_count == 0
            &&& status.data_space_failures == 0
            &&& status.headroom_updates == 0
            &&& status.extended_linear_frames == 0
        }),
{
}

/// What a retired output has counted is added to its successor's counts, each to its
/// own; nothing else of the retired output is taken over.
pub proof fn lemma_retired_counts_are_added(
    status: OutputRuntimeStatus,
    retired: OutputRuntimeStatus,
)
    requires
        status.fallback_count + retired.fallback_count <= u64::MAX,
        status.data_space_failures + retired.data_space_failures <= u64::MAX,
        status.headroom_updates + retired.headroom_updates <= u64::MAX,
        status.extended_linear_frames + retired.extended_linear_frames <= u64::MAX,
    ensures
        ({
            let both = with_retired_counters(status, retired);
            &&& both.fallback_count == status.fallback_count + retired.fallback_count
            &&& both.data_space_failures == status.data_space_failures
                + retired.data_space_failures
            &&& both.headroom_updates == status.headroom_updates + retired.headroom_updates
            &&& both.extended_linear_frames == status.extended_linear_frames
                + retired.extended_linear_frames
            &&& both == (OutputRuntimeStatus {
                fallback_count: both.fallback_count,
                data_space_failures: both.data_space_failures,
                headroom_updates: both.headroom_updates,
                extended_linear_frames: both.extended_linear_frames,
                ..status
            })
        }),
{
}

/// A count never goes round: it stays at the largest.
pub proof fn lemma_counts_stay_at_the_largest(left: u64, right: u64)
    ensures
        left + right <= 0xffff_ffff_ffff_ffff ==> sum_capped(left, right) == left + right,
        left + right > 0xffff_ffff_ffff_ffff ==> sum_capped(left, right)
            == 0xffff_ffff_ffff_ffff,
{
}

} // verus!
