//! Surfaces of the portable GPU backend: the format they are given, the data
//! space that is verified, and the frames that are acquired from them.

use crate::android::{AndroidDataSpaceErrorKind, AndroidDataSpaceVerification};
use crate::float::{at_least, larger_of, FloatBits, ONE};
use crate::renderer::output::{
    effective_extended_linear_headroom, effective_headroom, sum_capped, ActiveOutputEncoding,
    OutputDescription, OutputFallbackReason, OutputHeadroomState, OutputMode, OutputRuntimeStatus,
    OutputSurfaceFormat, SurfaceOutputCapabilities,
};
use crate::renderer::pipeline::is_product;
use crate::renderer::surface::{
    PlatformSurface, SurfaceMetrics, WgpuSurfaceHandle, WgpuSurfaceKind,
};
use crate::renderer::wgpu::backend::{Backend, Platform};
use crate::renderer::wgpu::{WgpuRenderer, WgpuRendererStats};
use vstd::prelude::*;

verus! {

/// Formats that a surface may be given.
#[derive(Debug, Clone, Copy, PartialEq, Eq, Structural)]
pub enum TextureFormat {
    Bgra8Unorm,
    Rgba8Unorm,
    Bgra8UnormSrgb,
    Rgba8UnormSrgb,
    Rgba16Float,
    Rgb10a2Unorm,
    /// Any other format, by a number of the device's.
    Other { code: u32 },
}

#[derive(Debug, Clone, Copy, PartialEq, Eq, Structural)]
pub enum PresentMode {
    Fifo,
    FifoRelaxed,
    Immediate,
    Mailbox,
}

#[derive(Debug, Clone, Copy, PartialEq, Eq, Structural)]
pub enum CompositeAlphaMode {
    Opaque,
    PreMultiplied,
    PostMultiplied,
    Inherit,
}

/// The first format that is not floating point.
pub open spec fn first_fixed_point(formats: Seq<TextureFormat>) -> Option<TextureFormat>
    decreases formats.len(),
{
    if formats.len() == 0 {
        None
    } else if formats[0] != TextureFormat::Rgba16Float {
        Some(formats[0])
    } else {
        first_fixed_point(formats.drop_first())
    }
}

/// The format for standard dynamic range: eight bits without a transfer
/// function before those with one, and else the first that is not floating
/// point.
pub open spec fn sdr_format(formats: Seq<TextureFormat>) -> Option<TextureFormat> {
    if formats.contains(TextureFormat::Bgra8Unorm) {
        Some(TextureFormat::Bgra8Unorm)
    } else if formats.contains(TextureFormat::Rgba8Unorm) {
        Some(TextureFormat::Rgba8Unorm)
    } else if formats.contains(TextureFormat::Bgra8UnormSrgb) {
        Some(TextureFormat::Bgra8UnormSrgb)
    } else if formats.contains(TextureFormat::Rgba8UnormSrgb) {
        Some(TextureFormat::Rgba8UnormSrgb)
    } else {
        first_fixed_point(formats)
    }
}

fn contains_format(formats: &[TextureFormat], wanted: TextureFormat) -> (found: bool)
    ensures
        found == formats@.contains(wanted),
{
    let mut i: usize = 0;
    while i < formats.len()
        invariant
            i <= formats@.len(),
            forall|j: int| 0 <= j < i ==> formats@[j] != wanted,
        decreases formats@.len() - i,
    {
        if formats[i] == wanted {
            return true;
        }
        i = i + 1;
    }
    false
}

pub fn preferred_sdr_surface_format(formats: &[TextureFormat]) -> (format: Option<TextureFormat>)
    ensures
        format == sdr_format(formats@),
{
    if contains_format(formats, TextureFormat::Bgra8Unorm) {
        return Some(TextureFormat::Bgra8Unorm);
    }
    if contains_format(formats, TextureFormat::Rgba8Unorm) {
        return Some(TextureFormat::Rgba8Unorm);
    }
    if contains_format(formats, TextureFormat::Bgra8UnormSrgb) {
        return Some(TextureFormat::Bgra8UnormSrgb);
    }
    if contains_format(formats, TextureFormat::Rgba8UnormSrgb) {
        return Some(TextureFormat::Rgba8UnormSrgb);
    }
    let mut i: usize = 0;
    assert(formats@.skip(0) =~= formats@);
    while i < formats.len()
        invariant
            i <= formats@.len(),
            sdr_format(formats@) == first_fixed_point(formats@.skip(i as int)),
        decreases formats@.len() - i,
    {
        let format: TextureFormat = formats[i];
        assert(formats@.skip(i as int)[0] == format);
        assert(formats@.skip(i as int).drop_first() =~= formats@.skip(i + 1));
        if format != TextureFormat::Rgba16Float {
            return Some(format);
        }
        i = i + 1;
    }
    None
}

/// The format of a surface and what is shown in it.
#[derive(Debug, Clone, Copy, PartialEq, Eq, Structural)]
pub struct WgpuSurfaceOutputSelection {
    pub format: TextureFormat,
    /// The format to fall back to.
    pub sdr_format: TextureFormat,
    pub output: OutputDescription,
    pub fallback_reason: OutputFallbackReason,
}

/// Why a surface is not given the extended linear output that was asked for,
/// or `None` where it is.
pub open spec fn sdr_reason(
    requested: OutputMode,
    capabilities: SurfaceOutputCapabilities,
    backend: Backend,
    formats: Seq<TextureFormat>,
) -> Option<OutputFallbackReason> {
    match requested {
        OutputMode::Sdr => Some(OutputFallbackReason::NotNeeded),
        OutputMode::Auto { .. } => Some(OutputFallbackReason::NotNeeded),
        OutputMode::AppleEdr { .. } => Some(OutputFallbackReason::LegacyAppleEdrUnsupported),
        OutputMode::ExtendedLinear { .. } => if !capabilities.extended_linear {
            if capabilities.fallback_reason == OutputFallbackReason::NotNeeded {
                Some(OutputFallbackReason::DisplayHdrUnsupported)
            } else {
                Some(capabilities.fallback_reason)
            }
        } else if !capabilities.direct_composition {
            Some(OutputFallbackReason::HybridCompositionRequired)
        } else if backend != Backend::Vulkan {
            Some(OutputFallbackReason::WgpuBackendNotVulkan)
        } else if !formats.contains(TextureFormat::Rgba16Float) {
            Some(OutputFallbackReason::Rgba16FloatSurfaceFormatUnavailable)
        } else {
            None
        },
    }
}

pub open spec fn selection<M: Fn(FloatBits, FloatBits) -> FloatBits>(
    requested: OutputMode,
    capabilities: SurfaceOutputCapabilities,
    backend: Backend,
    formats: Seq<TextureFormat>,
    multiply: M,
) -> Option<WgpuSurfaceOutputSelection> {
    match sdr_format(formats) {
        None => None,
        Some(sdr) => match sdr_reason(requested, capabilities, backend, formats) {
            Some(fallback_reason) => Some(
                WgpuSurfaceOutputSelection {
                    format: sdr,
                    sdr_format: sdr,
                    output: OutputDescription::of_sdr(),
                    fallback_reason,
                },
            ),
            None => Some(
                WgpuSurfaceOutputSelection {
                    format: TextureFormat::Rgba16Float,
                    sdr_format: sdr,
                    output: OutputDescription::of_extended_linear(
                        requested.requested_headroom(),
                        multiply,
                    ),
                    fallback_reason: OutputFallbackReason::NotNeeded,
                },
            ),
        },
    }
}

/// Selects a surface's format and output. Extended linear output takes a
/// display and a surface that can show it, direct composition, Vulkan and a
/// floating point format; whichever of these is missing first is the reason for
/// standard dynamic range. `None` where no format is left to fall back to.
pub fn select_wgpu_surface_output<M: Fn(FloatBits, FloatBits) -> FloatBits>(
    requested: OutputMode,
    capabilities: SurfaceOutputCapabilities,
    backend: Backend,
    formats: &[TextureFormat],
    multiply: &M,
) -> (selected: Option<WgpuSurfaceOutputSelection>)
    requires
        is_product(*multiply),
    ensures
        selected == selection(requested, capabilities, backend, formats@, *multiply),
{
    let sdr: TextureFormat = match preferred_sdr_surface_format(formats) {
        Some(format) => format,
        None => {
            return None;
        },
    };
    let fallback_reason: OutputFallbackReason = match requested {
        OutputMode::Sdr => OutputFallbackReason::NotNeeded,
        OutputMode::Auto { .. } => OutputFallbackReason::NotNeeded,
        OutputMode::AppleEdr { .. } => OutputFallbackReason::LegacyAppleEdrUnsupported,
        OutputMode::ExtendedLinear { headroom } => {
            if !capabilities.extended_linear {
                if capabilities.fallback_reason == OutputFallbackReason::NotNeeded {
                    OutputFallbackReason::DisplayHdrUnsupported
                } else {
                    capabilities.fallback_reason
                }
            } else if !capabilities.direct_composition {
                OutputFallbackReason::HybridCompositionRequired
            } else if backend != Backend::Vulkan {
                OutputFallbackReason::WgpuBackendNotVulkan
            } else if !contains_format(formats, TextureFormat::Rgba16Float) {
                OutputFallbackReason::Rgba16FloatSurfaceFormatUnavailable
            } else {
                return Some(
                    WgpuSurfaceOutputSelection {
                        format: TextureFormat::Rgba16Float,
                        sdr_format: sdr,
                        output: OutputDescription::extended_linear(headroom, multiply),
                        fallback_reason: OutputFallbackReason::NotNeeded,
                    },
                );
            }
        },
    };
    Some(
        WgpuSurfaceOutputSelection {
            format: sdr,
            sdr_format: sdr,
            output: OutputDescription::sdr(),
            fallback_reason,
        },
    )
}

/// The format to fall back to is one of the surface's and not floating point.
pub proof fn lemma_sdr_format_is_offered(formats: Seq<TextureFormat>)
    ensures
        sdr_format(formats) matches Some(format) ==> formats.contains(format) && format
            != TextureFormat::Rgba16Float,
        sdr_format(formats) is None ==> forall|i: int|
            0 <= i < formats.len() ==> formats[i] == TextureFormat::Rgba16Float,
{
    lemma_first_fixed_point(formats);
}

proof fn lemma_first_fixed_point(formats: Seq<TextureFormat>)
    ensures
        first_fixed_point(formats) matches Some(format) ==> formats.contains(format) && format
            != TextureFormat::Rgba16Float,
        first_fixed_point(formats) is None ==> forall|i: int|
            0 <= i < formats.len() ==> formats[i] == TextureFormat::Rgba16Float,
    decreases formats.len(),
{
    if formats.len() > 0 && formats[0] == TextureFormat::Rgba16Float {
        let rest = formats.drop_first();
        lemma_first_fixed_point(rest);
        if let Some(format) = first_fixed_point(rest) {
            assert(formats[rest.index_of(format) + 1] == format);
        } else {
            assert forall|i: int| 0 <= i < formats.len() implies formats[i]
                == TextureFormat::Rgba16Float by {
                if i > 0 {
                    assert(rest[i - 1] == formats[i]);
                }
            }
        }
    }
}

/// Extended linear output is given exactly where it was asked for and nothing
/// stands in its way.
pub proof fn lemma_extended_linear_needs_everything<M: Fn(FloatBits, FloatBits) -> FloatBits>(
    requested: OutputMode,
    capabilities: SurfaceOutputCapabilities,
    backend: Backend,
    formats: Seq<TextureFormat>,
    multiply: M,
)
    ensures
        ({
            let selected = selection(requested, capabilities, backend, formats, multiply);
            (selected is Some && selected->0.output.extended_linear) <==> (sdr_format(formats)
                is Some && requested is ExtendedLinear && capabilities.extended_linear
                && capabilities.direct_composition && backend == Backend::Vulkan
                && formats.contains(TextureFormat::Rgba16Float))
        }),
{
}

/// How a surface is configured.
#[derive(Debug, Clone, Copy, PartialEq, Eq, Structural)]
pub struct SurfaceConfiguration {
    pub format: TextureFormat,
    pub width: u32,
    pub height: u32,
    pub present_mode: PresentMode,
    pub alpha_mode: CompositeAlphaMode,
}

/// A surface that frames are presented on.
#[derive(Debug, Clone, Copy, PartialEq, Eq, Structural)]
pub struct AttachedSurface {
    pub config: SurfaceConfiguration,
    pub sdr_format: TextureFormat,
    pub output: OutputDescription,
    pub fallback_reason: OutputFallbackReason,
    pub data_space_failure: bool,
    pub native_data_space: i32,
    pub handle: WgpuSurfaceHandle,
}

/// Why a surface cannot be attached or resized.
#[derive(Debug, Clone, Copy, PartialEq, Eq, Structural)]
pub enum SurfaceError {
    /// The surface belongs to another backend.
    NotWgpu,
    /// Surfaces of this kind cannot be presented on here.
    KindNotWired { kind: WgpuSurfaceKind },
    NullWindow { kind: WgpuSurfaceKind },
    NoSdrFormat,
    NoPresentMode,
    NoAlphaMode,
    NoSurface,
}

/// The reason for standard dynamic range where a data space was not verified.
pub open spec fn data_space_reason(kind: AndroidDataSpaceErrorKind) -> OutputFallbackReason {
    match kind {
        AndroidDataSpaceErrorKind::ApiUnavailable => OutputFallbackReason::NativeWindowDataSpaceApiUnavailable,
        AndroidDataSpaceErrorKind::VerificationFailed => OutputFallbackReason::ScrgbDataSpaceVerificationFailed,
    }
}

/// Whether the data space of a surface's window has to be verified after it
/// was configured.
pub open spec fn verifies_data_space(platform: Platform, attached: AttachedSurface) -> bool {
    platform == Platform::Android && attached.output.extended_linear
}

impl AttachedSurface {
    /// The surface once its window's data space was looked at.
    pub open spec fn checked(
        self,
        verification: Result<AndroidDataSpaceVerification, AndroidDataSpaceErrorKind>,
    ) -> Self {
        match verification {
            Ok(verification) => AttachedSurface { native_data_space: verification.after, ..self },
            Err(kind) => AttachedSurface {
                config: SurfaceConfiguration { format: self.sdr_format, ..self.config },
                output: OutputDescription::of_sdr(),
                fallback_reason: data_space_reason(kind),
                data_space_failure: true,
                native_data_space: -1i32,
                ..self
            },
        }
    }

    /// Whether the data space of the surface's window has to be verified.
    pub fn needs_data_space(&self, platform: Platform) -> (needed: bool)
        ensures
            needed == verifies_data_space(platform, *self),
    {
        platform == Platform::Android && self.output.extended_linear
    }

    /// Takes in what came of the data space's verification. Where it failed the
    /// surface falls back to standard dynamic range and has to be configured
    /// once more.
    pub fn data_space_checked(
        &mut self,
        verification: Result<AndroidDataSpaceVerification, AndroidDataSpaceErrorKind>,
    ) -> (reconfigure: bool)
        ensures
            *final(self) == old(self).checked(verification),
            reconfigure == (verification is Err),
    {
        match verification {
            Ok(verification) => {
                self.native_data_space = verification.after;
                false
            },
            Err(kind) => {
                self.config.format = self.sdr_format;
                self.output = OutputDescription::sdr();
                self.fallback_reason = match kind {
                    AndroidDataSpaceErrorKind::ApiUnavailable => OutputFallbackReason::NativeWindowDataSpaceApiUnavailable,
                    AndroidDataSpaceErrorKind::VerificationFailed => OutputFallbackReason::ScrgbDataSpaceVerificationFailed,
                };
                self.data_space_failure = true;
                self.native_data_space = -1;
                true
            },
        }
    }
}

/// The mode that is wanted, where it is offered, and else the first.
pub open spec fn present_mode(modes: Seq<PresentMode>) -> Option<PresentMode> {
    if modes.contains(PresentMode::Fifo) {
        Some(PresentMode::Fifo)
    } else if modes.len() > 0 {
        Some(modes[0])
    } else {
        None
    }
}

fn choose_present_mode(modes: &[PresentMode]) -> (mode: Option<PresentMode>)
    ensures
        mode == present_mode(modes@),
{
    let mut i: usize = 0;
    while i < modes.len()
        invariant
            i <= modes@.len(),
            forall|j: int| 0 <= j < i ==> modes@[j] != PresentMode::Fifo,
        decreases modes@.len() - i,
    {
        if modes[i] == PresentMode::Fifo {
            assert(modes@[i as int] == PresentMode::Fifo);
            return Some(PresentMode::Fifo);
        }
        i = i + 1;
    }
    if modes.len() > 0 {
        Some(modes[0])
    } else {
        None
    }
}

/// The alpha mode that suits the video, where it is offered, and else the
/// first.
pub open spec fn alpha_mode(modes: Seq<CompositeAlphaMode>, has_alpha: bool) -> Option<
    CompositeAlphaMode,
> {
    let preferred = if has_alpha {
        CompositeAlphaMode::PreMultiplied
    } else {
        CompositeAlphaMode::Opaque
    };
    if modes.contains(preferred) {
        Some(preferred)
    } else if modes.len() > 0 {
        Some(modes[0])
    } else {
        None
    }
}

fn choose_alpha_mode(modes: &[CompositeAlphaMode], has_alpha: bool) -> (mode: Option<
    CompositeAlphaMode,
>)
    ensures
        mode == alpha_mode(modes@, has_alpha),
{
    let preferred: CompositeAlphaMode = if has_alpha {
        CompositeAlphaMode::PreMultiplied
    } else {
        CompositeAlphaMode::Opaque
    };
    let mut i: usize = 0;
    while i < modes.len()
        invariant
            i <= modes@.len(),
            preferred == if has_alpha {
                CompositeAlphaMode::PreMultiplied
            } else {
                CompositeAlphaMode::Opaque
            },
            forall|j: int| 0 <= j < i ==> modes@[j] != preferred,
        decreases modes@.len() - i,
    {
        if modes[i] == preferred {
            assert(modes@[i as int] == preferred);
            return Some(preferred);
        }
        i = i + 1;
    }
    if modes.len() > 0 {
        Some(modes[0])
    } else {
        None
    }
}

/// The kind of surface that a platform's windows are.
pub open spec fn wired(platform: Platform, kind: WgpuSurfaceKind) -> bool {
    match platform {
        Platform::Apple => kind == WgpuSurfaceKind::MacOsCaMetalLayer,
        Platform::Windows => kind == WgpuSurfaceKind::WindowsHwnd,
        Platform::Android => kind == WgpuSurfaceKind::AndroidNativeWindow,
        Platform::Ohos => kind == WgpuSurfaceKind::OhosNativeWindow,
        Platform::Other => false,
    }
}

/// Whether a surface can be presented on.
pub open spec fn surface_check(platform: Platform, surface: PlatformSurface) -> Result<
    WgpuSurfaceHandle,
    SurfaceError,
> {
    match surface {
        PlatformSurface::Wgpu { handle } => if !wired(platform, handle.kind) {
            Err(SurfaceError::KindNotWired { kind: handle.kind })
        } else if handle.kind != WgpuSurfaceKind::MacOsCaMetalLayer && handle.raw_window == 0 {
            Err(SurfaceError::NullWindow { kind: handle.kind })
        } else {
            Ok(handle)
        },
        _ => Err(SurfaceError::NotWgpu),
    }
}

/// The surface that a handle's window becomes, or why it does not.
pub open spec fn planned<M: Fn(FloatBits, FloatBits) -> FloatBits>(
    renderer: WgpuRenderer,
    handle: WgpuSurfaceHandle,
    backend: Backend,
    formats: Seq<TextureFormat>,
    present_modes: Seq<PresentMode>,
    alpha_modes: Seq<CompositeAlphaMode>,
    multiply: M,
) -> Result<AttachedSurface, SurfaceError> {
    let chosen = selection(
        renderer.output_mode,
        handle.output_capabilities,
        backend,
        formats,
        multiply,
    );
    let present = present_mode(present_modes);
    let alpha = alpha_mode(alpha_modes, renderer.video_has_alpha);
    if chosen is None {
        Err(SurfaceError::NoSdrFormat)
    } else if present is None {
        Err(SurfaceError::NoPresentMode)
    } else if alpha is None {
        Err(SurfaceError::NoAlphaMode)
    } else {
        Ok(
            AttachedSurface {
                config: SurfaceConfiguration {
                    format: chosen->0.format,
                    width: handle.size.width,
                    height: handle.size.height,
                    present_mode: present->0,
                    alpha_mode: alpha->0,
                },
                sdr_format: chosen->0.sdr_format,
                output: if chosen->0.output.extended_linear {
                    OutputDescription::of_extended_linear(
                        effective_headroom(
                            renderer.output_mode,
                            handle.output_capabilities,
                            renderer.output_headroom,
                        ),
                        multiply,
                    )
                } else {
                    chosen->0.output
                },
                fallback_reason: chosen->0.fallback_reason,
                data_space_failure: false,
                native_data_space: -1i32,
                handle,
            },
        )
    }
}

/// The status of an output once a surface was configured.
pub open spec fn attached_status(
    status: OutputRuntimeStatus,
    headroom: OutputHeadroomState,
    attached: AttachedSurface,
    count_fallback: bool,
) -> OutputRuntimeStatus {
    let extended = attached.output.extended_linear;
    OutputRuntimeStatus {
        active_encoding: if extended {
            ActiveOutputEncoding::AndroidExtendedLinearScRgb
        } else {
            ActiveOutputEncoding::SdrSrgb
        },
        surface_format: attached.output.surface_format,
        native_data_space: attached.native_data_space,
        active_headroom: if !extended {
            ONE
        } else if headroom.known {
            headroom.headroom
        } else {
            at_least(attached.output.target.edr_headroom, ONE)
        },
        active_headroom_known: !extended || headroom.known,
        extended_linear_active: extended,
        fallback_reason: attached.fallback_reason,
        fallback_count: if count_fallback && attached.fallback_reason
            != OutputFallbackReason::NotNeeded {
            sum_capped(status.fallback_count, 1)
        } else {
            status.fallback_count
        },
        data_space_failures: if count_fallback && attached.data_space_failure {
            sum_capped(status.data_space_failures, 1)
        } else {
            status.data_space_failures
        },
        ..status
    }
}

/// The status of an output that lost its surface.
pub open spec fn detached_status(status: OutputRuntimeStatus) -> OutputRuntimeStatus {
    OutputRuntimeStatus {
        active_encoding: ActiveOutputEncoding::SdrSrgb,
        surface_format: OutputSurfaceFormat::EightBitUnorm,
        native_data_space: -1i32,
        active_headroom: ONE,
        active_headroom_known: false,
        extended_linear_active: false,
        ..status
    }
}

/// Headrooms that are less than a thousandth apart are the same.
pub const HEADROOM_TOLERANCE: FloatBits = 0x3a83_126f;

/// `distance` accepts everything and depends on its arguments alone.
pub open spec fn is_headroom_distance<N: Fn(FloatBits, FloatBits) -> FloatBits>(
    distance: N,
) -> bool {
    &&& forall|left: FloatBits, right: FloatBits| #[trigger] distance.requires((left, right))
    &&& forall|left: FloatBits, right: FloatBits, first: FloatBits, second: FloatBits|
        #[trigger] distance.ensures((left, right), first) && #[trigger] distance.ensures(
            (left, right),
            second,
        ) ==> first == second
}

/// Whether two headrooms are the same, by how far `distance` says that they
/// are apart.
pub open spec fn same_headroom<N: Fn(FloatBits, FloatBits) -> FloatBits>(
    distance: N,
    left: FloatBits,
    right: FloatBits,
) -> bool {
    (choose|apart: FloatBits| distance.ensures((left, right), apart)) < HEADROOM_TOLERANCE
}

impl WgpuRenderer {
    /// The renderer once a display has reported a headroom that differs from
    /// the one before.
    pub open spec fn with_headroom<M: Fn(FloatBits, FloatBits) -> FloatBits>(
        self,
        state: OutputHeadroomState,
        count_update: bool,
        multiply: M,
    ) -> Self {
        let extended = self.surface is Some && self.surface->0.output.extended_linear;
        let effective = effective_headroom(
            self.output_mode,
            self.surface->0.handle.output_capabilities,
            state,
        );
        WgpuRenderer {
            output_headroom: state,
            surface: if extended {
                Some(
                    AttachedSurface {
                        output: OutputDescription::of_extended_linear(effective, multiply),
                        ..self.surface->0
                    },
                )
            } else {
                self.surface
            },
            output_status: OutputRuntimeStatus {
                active_headroom: if !extended {
                    self.output_status.active_headroom
                } else if state.known {
                    state.headroom
                } else {
                    effective
                },
                active_headroom_known: if extended {
                    state.known
                } else {
                    self.output_status.active_headroom_known
                },
                headroom_updates: if count_update && self.output_mode is ExtendedLinear {
                    sum_capped(self.output_status.headroom_updates, 1)
                } else {
                    self.output_status.headroom_updates
                },
                ..self.output_status
            },
            ..self
        }
    }

    /// Whether a surface can be presented on, before anything is done with it.
    pub fn check_surface(&self, surface: PlatformSurface) -> (checked: Result<
        WgpuSurfaceHandle,
        SurfaceError,
    >)
        ensures
            checked == surface_check(self.platform, surface),
    {
        let handle: WgpuSurfaceHandle = match surface {
            PlatformSurface::Wgpu { handle } => handle,
            _ => {
                return Err(SurfaceError::NotWgpu);
            },
        };
        let wired: bool = match self.platform {
            Platform::Apple => handle.kind == WgpuSurfaceKind::MacOsCaMetalLayer,
            Platform::Windows => handle.kind == WgpuSurfaceKind::WindowsHwnd,
            Platform::Android => handle.kind == WgpuSurfaceKind::AndroidNativeWindow,
            Platform::Ohos => handle.kind == WgpuSurfaceKind::OhosNativeWindow,
            Platform::Other => false,
        };
        if !wired {
            return Err(SurfaceError::KindNotWired { kind: handle.kind });
        }
        if handle.kind != WgpuSurfaceKind::MacOsCaMetalLayer && handle.raw_window == 0 {
            return Err(SurfaceError::NullWindow { kind: handle.kind });
        }
        Ok(handle)
    }

    /// Plans the surface that a window becomes, from what the device can do
    /// with it. Frames are presented in step with the display where that is
    /// offered.
    pub fn plan_surface<M: Fn(FloatBits, FloatBits) -> FloatBits>(
        &self,
        handle: WgpuSurfaceHandle,
        backend: Backend,
        formats: &[TextureFormat],
        present_modes: &[PresentMode],
        alpha_modes: &[CompositeAlphaMode],
        multiply: &M,
    ) -> (plan: Result<AttachedSurface, SurfaceError>)
        requires
            is_product(*multiply),
        ensures
            plan == planned(
                *self,
                handle,
                backend,
                formats@,
                present_modes@,
                alpha_modes@,
                *multiply,
            ),
    {
        let chosen: WgpuSurfaceOutputSelection = match select_wgpu_surface_output(
            self.output_mode,
            handle.output_capabilities,
            backend,
            formats,
            multiply,
        ) {
            Some(chosen) => chosen,
            None => {
                return Err(SurfaceError::NoSdrFormat);
            },
        };
        let present_mode: PresentMode = match choose_present_mode(present_modes) {
            Some(mode) => mode,
            None => {
                return Err(SurfaceError::NoPresentMode);
            },
        };
        let alpha_mode: CompositeAlphaMode = match choose_alpha_mode(
            alpha_modes,
            self.video_has_alpha,
        ) {
            Some(mode) => mode,
            None => {
                return Err(SurfaceError::NoAlphaMode);
            },
        };
        let (width, height) = handle.metrics().physical_size();
        let output: OutputDescription = if chosen.output.extended_linear {
            OutputDescription::extended_linear(
                effective_extended_linear_headroom(
                    self.output_mode,
                    handle.output_capabilities,
                    self.output_headroom,
                ),
                multiply,
            )
        } else {
            chosen.output
        };
        Ok(
            AttachedSurface {
                config: SurfaceConfiguration {
                    format: chosen.format,
                    width,
                    height,
                    present_mode,
                    alpha_mode,
                },
                sdr_format: chosen.sdr_format,
                output,
                fallback_reason: chosen.fallback_reason,
                data_space_failure: false,
                native_data_space: -1,
                handle,
            },
        )
    }

    fn observe_attached_output(&mut self, attached: AttachedSurface, count_fallback: bool)
        ensures
            *final(self) == (WgpuRenderer {
                output_status: attached_status(
                    old(self).output_status,
                    old(self).output_headroom,
                    attached,
                    count_fallback,
                ),
                ..*old(self)
            }),
    {
        let extended: bool = attached.output.extended_linear;
        self.output_status.active_encoding =
        if extended {
            ActiveOutputEncoding::AndroidExtendedLinearScRgb
        } else {
            ActiveOutputEncoding::SdrSrgb
        };
        self.output_status.surface_format = attached.output.surface_format;
        self.output_status.native_data_space = attached.native_data_space;
        self.output_status.active_headroom =
        if !extended {
            ONE
        } else if self.output_headroom.known {
            self.output_headroom.headroom
        } else {
            larger_of(attached.output.target.edr_headroom, ONE)
        };
        self.output_status.active_headroom_known = !extended || self.output_headroom.known;
        self.output_status.extended_linear_active = extended;
        self.output_status.fallback_reason = attached.fallback_reason;
        if count_fallback && attached.fallback_reason != OutputFallbackReason::NotNeeded {
            self.output_status.fallback_count = self.output_status.fallback_count.saturating_add(1);
        }
        if count_fallback && attached.data_space_failure {
            self.output_status.data_space_failures =
            self.output_status.data_space_failures.saturating_add(1);
        }
    }

    /// A surface was attached, or took the place of one that was lost.
    pub fn surface_attached(&mut self, attached: AttachedSurface)
        ensures
            *final(self) == (WgpuRenderer {
                surface: Some(attached),
                stats: WgpuRendererStats {
                    surface_width: attached.config.width,
                    surface_height: attached.config.height,
                    attached: true,
                    ..old(self).stats
                },
                output_status: attached_status(
                    old(self).output_status,
                    old(self).output_headroom,
                    attached,
                    true,
                ),
                ..*old(self)
            }),
            final(self).well_formed(),
    {
        self.stats.surface_width = attached.config.width;
        self.stats.surface_height = attached.config.height;
        self.stats.attached = true;
        self.observe_attached_output(attached, true);
        self.surface = Some(attached);
    }

    /// The surface is gone.
    pub fn detach_surface(&mut self)
        ensures
            *final(self) == (WgpuRenderer {
                surface: None,
                stats: WgpuRendererStats { attached: false, ..old(self).stats },
                output_status: detached_status(old(self).output_status),
                ..*old(self)
            }),
            final(self).well_formed(),
    {
        self.surface = None;
        self.stats.attached = false;
        self.output_status.active_encoding = ActiveOutputEncoding::SdrSrgb;
        self.output_status.surface_format = OutputSurfaceFormat::EightBitUnorm;
        self.output_status.native_data_space = -1;
        self.output_status.active_headroom = ONE;
        self.output_status.active_headroom_known = false;
        self.output_status.extended_linear_active = false;
    }

    /// The surface has another extent. Where it differs in physical pixels the
    /// surface has to be configured anew, with sides of at least one.
    pub fn resize_surface(&mut self, metrics: SurfaceMetrics) -> (reconfigure: Result<
        bool,
        SurfaceError,
    >)
        requires
            old(self).well_formed(),
        ensures
            final(self).well_formed(),
            match old(self).surface {
                None => reconfigure == Err::<bool, SurfaceError>(SurfaceError::NoSurface)
                    && *final(self) == *old(self),
                Some(attached) => {
                    let same = attached.handle.size.width == metrics.width
                        && attached.handle.size.height == metrics.height;
                    let width = if metrics.width == 0 {
                        1u32
                    } else {
                        metrics.width
                    };
                    let height = if metrics.height == 0 {
                        1u32
                    } else {
                        metrics.height
                    };
                    &&& reconfigure == Ok::<bool, SurfaceError>(!same)
                    &&& *final(self) == (WgpuRenderer {
                        surface: Some(
                            AttachedSurface {
                                config: if same {
                                    attached.config
                                } else {
                                    SurfaceConfiguration { width, height, ..attached.config }
                                },
                                handle: WgpuSurfaceHandle { size: metrics, ..attached.handle },
                                ..attached
                            },
                        ),
                        stats: if same {
                            old(self).stats
                        } else {
                            WgpuRendererStats {
                                surface_width: width,
                                surface_height: height,
                                ..old(self).stats
                            }
                        },
                        ..*old(self)
                    })
                },
            },
    {
        let mut attached: AttachedSurface = match self.surface {
            Some(attached) => attached,
            None => {
                return Err(SurfaceError::NoSurface);
            },
        };
        let (width, height) = metrics.physical_size();
        let current: (u32, u32) = attached.handle.metrics().physical_size();
        let changed: bool = current.0 != width || current.1 != height;
        if changed {
            attached.config.width =
            if width == 0 {
                1
            } else {
                width
            };
            attached.config.height =
            if height == 0 {
                1
            } else {
                height
            };
            self.stats.surface_width = attached.config.width;
            self.stats.surface_height = attached.config.height;
        }
        attached.handle.resize(metrics);
        self.surface = Some(attached);
        Ok(changed)
    }

    /// The surface was configured once more, and its window's data space
    /// verified where it had to be. Answers whether it has fallen back to
    /// standard dynamic range and has to be configured again.
    pub fn surface_configured(
        &mut self,
        verification: Option<Result<AndroidDataSpaceVerification, AndroidDataSpaceErrorKind>>,
    ) -> (reconfigure: bool)
        requires
            old(self).well_formed(),
            old(self).surface is Some,
            verification is Some <==> verifies_data_space(
                old(self).platform,
                old(self).surface->0,
            ),
        ensures
            final(self).well_formed(),
            reconfigure == (verification is Some && verification->0 is Err),
            ({
                let attached = match verification {
                    Some(verification) => old(self).surface->0.checked(verification),
                    None => old(self).surface->0,
                };
                *final(self) == (WgpuRenderer {
                    surface: Some(attached),
                    output_status: attached_status(
                        old(self).output_status,
                        old(self).output_headroom,
                        attached,
                        reconfigure,
                    ),
                    ..*old(self)
                })
            }),
    {
        if let Some(surface) = self.surface {
            let mut attached: AttachedSurface = surface;
            let reconfigure: bool = match verification {
                Some(verification) => attached.data_space_checked(verification),
                None => false,
            };
            self.surface = Some(attached);
            self.observe_attached_output(attached, reconfigure);
            reconfigure
        } else {
            false
        }
    }

    /// The display's headroom is known to be `state`. A headroom that hardly
    /// differs from the one before changes nothing.
    pub fn update_output_headroom_state<
        M: Fn(FloatBits, FloatBits) -> FloatBits,
        N: Fn(FloatBits, FloatBits) -> FloatBits,
    >(&mut self, state: OutputHeadroomState, count_update: bool, multiply: &M, distance: &N)
        requires
            is_product(*multiply),
            is_headroom_distance(*distance),
        ensures
            *final(self) == if old(self).output_headroom.known == state.known && same_headroom(
                *distance,
                old(self).output_headroom.headroom,
                state.headroom,
            ) {
                *old(self)
            } else {
                old(self).with_headroom(state, count_update, *multiply)
            },
    {
        if self.output_headroom.known == state.known && distance(
            self.output_headroom.headroom,
            state.headroom,
        ) < HEADROOM_TOLERANCE {
            return;
        }
        self.output_headroom = state;
        if let Some(surface) = self.surface {
            let mut attached: AttachedSurface = surface;
            if attached.output.extended_linear {
                let effective: FloatBits = effective_extended_linear_headroom(
                    self.output_mode,
                    attached.handle.output_capabilities,
                    state,
                );
                attached.output = OutputDescription::extended_linear(effective, multiply);
                self.surface = Some(attached);
                self.output_status.active_headroom =
                if state.known {
                    state.headroom
                } else {
                    effective
                };
                self.output_status.active_headroom_known = state.known;
            }
        }
        if count_update && self.output_mode.is_android_extended_linear() {
            self.output_status.headroom_updates =
            self.output_status.headroom_updates.saturating_add(1);
        }
    }

    /// The display has reported its headroom. What is shown follows it; a
    /// report that hardly differs from the one before changes nothing.
    pub fn set_output_headroom<
        M: Fn(FloatBits, FloatBits) -> FloatBits,
        N: Fn(FloatBits, FloatBits) -> FloatBits,
    >(&mut self, headroom: FloatBits, known: bool, multiply: &M, distance: &N)
        requires
            is_product(*multiply),
            is_headroom_distance(*distance),
        ensures
            ({
                let state = OutputHeadroomState::of_report(headroom, known);
                *final(self) == if old(self).output_headroom.known == state.known && same_headroom(
                    *distance,
                    old(self).output_headroom.headroom,
                    state.headroom,
                ) {
                    *old(self)
                } else {
                    old(self).with_headroom(state, true, *multiply)
                }
            }),
    {
        self.update_output_headroom_state(
            OutputHeadroomState::reported(headroom, known),
            true,
            multiply,
            distance,
        );
    }
}

/// A failed verification leaves nothing of the extended linear output, and is
/// counted.
pub proof fn lemma_failed_data_space_falls_back(
    renderer: WgpuRenderer,
    attached: AttachedSurface,
    kind: AndroidDataSpaceErrorKind,
)
    requires
        renderer.output_status.data_space_failures < u64::MAX,
        renderer.output_status.fallback_count < u64::MAX,
    ensures
        ({
            let fallen = attached.checked(Err(kind));
            let status = attached_status(
                renderer.output_status,
                renderer.output_headroom,
                fallen,
                true,
            );
            &&& !fallen.output.extended_linear
            &&& fallen.config.format == attached.sdr_format
            &&& status.active_encoding == ActiveOutputEncoding::SdrSrgb
            &&& status.native_data_space == -1
            &&& status.fallback_reason == data_space_reason(kind)
            &&& status.fallback_count == renderer.output_status.fallback_count + 1
            &&& status.data_space_failures == renderer.output_status.data_space_failures + 1
        }),
{
}

/// What a surface answers when a frame is asked of it.
#[derive(Debug, Clone, Copy, PartialEq, Eq, Structural)]
pub enum SurfaceStatus {
    Success,
    Suboptimal,
    Timeout,
    Occluded,
    Outdated,
    Lost,
    Validation,
}

/// What is to be done about the answer.
#[derive(Debug, Clone, Copy, PartialEq, Eq, Structural)]
pub enum AcquireAction {
    /// The frame can be drawn on.
    Draw { reconfigure_after_present: bool },
    /// There is nothing to draw on this time.
    Skip,
    /// The surface is configured once more; then a frame is asked for again,
    /// unless the surface had its chances.
    Reconfigure { retry: bool },
    /// The surface is made anew; then a frame is asked for again, unless the
    /// surface had its chances.
    Recreate { retry: bool },
    /// The surface cannot be used.
    Fail,
}

/// How often a surface may be outdated or lost before it is given up.
pub const SURFACE_RECOVERY_ATTEMPTS: u32 = 2;

/// The attempts to get one frame from a surface.
#[derive(Debug, Clone, Copy, PartialEq, Eq, Structural)]
pub struct SurfaceAcquisition {
    pub recoveries: u32,
}

impl SurfaceAcquisition {
    pub fn new() -> (acquisition: Self)
        ensures
            acquisition.recoveries == 0,
    {
        SurfaceAcquisition { recoveries: 0 }
    }

    pub open spec fn recovered(self) -> Self {
        SurfaceAcquisition { recoveries: (self.recoveries + 1) as u32 }
    }

    /// Takes in what the surface answered.
    pub fn observed(&mut self, status: SurfaceStatus) -> (action: AcquireAction)
        requires
            old(self).recoveries < SURFACE_RECOVERY_ATTEMPTS,
        ensures
            action == match status {
                SurfaceStatus::Success => AcquireAction::Draw { reconfigure_after_present: false },
                SurfaceStatus::Suboptimal => AcquireAction::Draw {
                    reconfigure_after_present: true,
                },
                SurfaceStatus::Timeout => AcquireAction::Skip,
                SurfaceStatus::Occluded => AcquireAction::Skip,
                SurfaceStatus::Outdated => AcquireAction::Reconfigure {
                    retry: final(self).recoveries < SURFACE_RECOVERY_ATTEMPTS,
                },
                SurfaceStatus::Lost => AcquireAction::Recreate {
                    retry: final(self).recoveries < SURFACE_RECOVERY_ATTEMPTS,
                },
                SurfaceStatus::Validation => AcquireAction::Fail,
            },
            status == SurfaceStatus::Outdated ==> action == (AcquireAction::Reconfigure {
                retry: old(self).recoveries == 0,
            }),
            status == SurfaceStatus::Lost ==> action == (AcquireAction::Recreate {
                retry: old(self).recoveries == 0,
            }),
            *final(self) == if status == SurfaceStatus::Outdated || status == SurfaceStatus::Lost {
                old(self).recovered()
            } else {
                *old(self)
            },
    {
        match status {
            SurfaceStatus::Success => AcquireAction::Draw { reconfigure_after_present: false },
            SurfaceStatus::Suboptimal => AcquireAction::Draw { reconfigure_after_present: true },
            SurfaceStatus::Timeout => AcquireAction::Skip,
            SurfaceStatus::Occluded => AcquireAction::Skip,
            SurfaceStatus::Outdated => {
                self.recoveries = self.recoveries + 1;
                AcquireAction::Reconfigure { retry: self.recoveries < SURFACE_RECOVERY_ATTEMPTS }
            },
            SurfaceStatus::Lost => {
                self.recoveries = self.recoveries + 1;
                AcquireAction::Recreate { retry: self.recoveries < SURFACE_RECOVERY_ATTEMPTS }
            },
            SurfaceStatus::Validation => AcquireAction::Fail,
        }
    }
}

} // verus!
