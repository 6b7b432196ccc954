//! What the portable backend selects, uploads, draws and recovers, stated of what it
//! is given.

use crate::android::{AndroidDataSpaceErrorKind, AndroidDataSpaceVerification};
use crate::color::ColorPrimaries;
use crate::float::{at_least, FloatBits};
use crate::renderer::context::RenderFrameContext;
use crate::renderer::danmaku::DanmakuRenderPlan;
use crate::renderer::frame::{DecoderBackend, GamutRows};
use crate::renderer::output::{
    effective_headroom, ActiveOutputEncoding, OutputDescription, OutputFallbackReason,
    OutputHeadroomState, OutputMode, OutputRuntimeStatus, OutputSurfaceFormat,
    SurfaceOutputCapabilities,
};
use crate::renderer::pipeline::{
    tone_mapping_required, LumaUpscalerMode, SourceColorState, VideoUniforms,
};
use crate::renderer::presentation::PresentationRect;
use crate::renderer::stats::LumaUpscalerBackendStatus;
use crate::renderer::surface::{PlatformSurface, WgpuSurfaceHandle, WgpuSurfaceKind};
use crate::renderer::wgpu::backend::{
    ascii_lower, candidates, equal_ignoring_case, fitted, label_at, rotation, Backend, Backends,
    DeviceType, Platform, WgpuBackendCandidate,
};
use crate::renderer::wgpu::device::{
    deferred, first_step, next_step, requested_limits, wants_interop, AdapterReport,
    CandidateSearchView, DeviceFailure, DeviceLimits, DeviceOutcome, DeviceReply, DeviceStep,
};
use crate::renderer::wgpu::draw::{
    batch_byte, drawn_stats, fitting_danmaku, has_overlays, known_side, upscaler_switch_needed,
};
use crate::renderer::wgpu::readback::{without_padding, WgpuOffscreenReadback};
use crate::renderer::wgpu::recovery::{
    next_sequence, remaining_order, restored, verdict, AndroidRecoveringWgpuRenderer,
    AndroidWgpuRecoveryPolicy, OperationEvent, OperationResult, OperationVerdict, RecoveryStep,
    RestoreEvent,
};
use crate::renderer::wgpu::surface::{
    alpha_mode, attached_status, data_space_reason, detached_status, first_fixed_point,
    is_headroom_distance, planned, present_mode, same_headroom, sdr_format, sdr_reason, selection,
    surface_check, verifies_data_space, wired, AttachedSurface, CompositeAlphaMode, PresentMode,
    SurfaceAcquisition, SurfaceError, TextureFormat,
};
use crate::renderer::wgpu::upload::{
    for_format, next_serial, planes_check, prepares, route, routed_stats, DecodedFrame,
    FrameRoute, PlanarFrame, PlanarPixelFormat, PlanarUploadPath, PlaneError, PlaneLayout,
    PreparedPlanarUpload, SharedBufferError, SharedBufferRoute, UploadedVideoFrame,
};
use crate::renderer::wgpu::{UpscalerReport, WgpuRenderer, WgpuRendererStats};
use vstd::prelude::*;

verus! {

/// The format of a standard output: the first of BGRA, RGBA, and the same two with
/// sRGB encoding, that the surface offers; and else the first format that it offers
/// which is not of floats.
pub proof fn lemma_bgra_is_preferred(formats: Seq<TextureFormat>)
    ensures
        ({
            let bgra = formats.contains(TextureFormat::Bgra8Unorm);
            let rgba = formats.contains(TextureFormat::Rgba8Unorm);
            let bgra_srgb = formats.contains(TextureFormat::Bgra8UnormSrgb);
            let rgba_srgb = formats.contains(TextureFormat::Rgba8UnormSrgb);
            let chosen = sdr_format(formats);
            &&& bgra ==> chosen == Some(TextureFormat::Bgra8Unorm)
            &&& !bgra && rgba ==> chosen == Some(TextureFormat::Rgba8Unorm)
            &&& !bgra && !rgba && bgra_srgb ==> chosen == Some(TextureFormat::Bgra8UnormSrgb)
            &&& !bgra && !rgba && !bgra_srgb && rgba_srgb ==> chosen == Some(
                TextureFormat::Rgba8UnormSrgb,
            )
            &&& !bgra && !rgba && !bgra_srgb && !rgba_srgb && formats.len() > 0 && formats[0]
                != TextureFormat::Rgba16Float ==> chosen == Some(formats[0])
        }),
{
}

/// Why an output falls back to the standard. It is asked to, or asked for nothing
/// else; Apple's mode is not for this backend; and extended linear needs a display
/// that shows it, direct composition, Vulkan and a format of floats, the first that is
/// missing being the reason. A surface that gives a reason of its own is quoted.
pub proof fn lemma_fallbacks_have_their_reasons(
    headroom: FloatBits,
    capabilities: SurfaceOutputCapabilities,
    backend: Backend,
    formats: Seq<TextureFormat>,
)
    ensures
        sdr_reason(OutputMode::Sdr, capabilities, backend, formats) == Some(
            OutputFallbackReason::NotNeeded,
        ),
        sdr_reason(OutputMode::Auto { headroom }, capabilities, backend, formats) == Some(
            OutputFallbackReason::NotNeeded,
        ),
        sdr_reason(OutputMode::AppleEdr { headroom }, capabilities, backend, formats) == Some(
            OutputFallbackReason::LegacyAppleEdrUnsupported,
        ),
        ({
            let reason = sdr_reason(
                OutputMode::ExtendedLinear { headroom },
                capabilities,
                backend,
                formats,
            );
            let shown = capabilities.extended_linear;
            let direct = capabilities.direct_composition;
            let vulkan = backend == Backend::Vulkan;
            let floats = formats.contains(TextureFormat::Rgba16Float);
            let given = capabilities.fallback_reason;
            &&& !shown && given != OutputFallbackReason::NotNeeded ==> reason == Some(given)
            &&& !shown && given == OutputFallbackReason::NotNeeded ==> reason == Some(
                OutputFallbackReason::DisplayHdrUnsupported,
            )
            &&& shown && !direct ==> reason == Some(
                OutputFallbackReason::HybridCompositionRequired,
            )
            &&& shown && direct && !vulkan ==> reason == Some(
                OutputFallbackReason::WgpuBackendNotVulkan,
            )
            &&& shown && direct && vulkan && !floats ==> reason == Some(
                OutputFallbackReason::Rgba16FloatSurfaceFormatUnavailable,
            )
            &&& shown && direct && vulkan && floats ==> reason is None
        }),
{
}

/// What is selected for a surface: nothing where it offers no standard format;
/// extended linear in floats, with the headroom that was asked for, where nothing
/// speaks against it; and else the standard in its standard format, with the reason.
/// The standard format is kept beside either.
pub proof fn lemma_selection_follows_the_reason<M: Fn(FloatBits, FloatBits) -> FloatBits>(
    requested: OutputMode,
    capabilities: SurfaceOutputCapabilities,
    backend: Backend,
    formats: Seq<TextureFormat>,
    multiply: M,
)
    ensures
        ({
            let chosen = selection(requested, capabilities, backend, formats, multiply);
            let standard = sdr_format(formats);
            let reason = sdr_reason(requested, capabilities, backend, formats);
            &&& chosen is None <==> standard is None
            &&& chosen is Some ==> chosen->0.sdr_format == standard->0
            &&& chosen is Some && reason is Some ==> {
                &&& chosen->0.format == standard->0
                &&& !chosen->0.output.extended_linear
                &&& chosen->0.output == OutputDescription::of_sdr()
                &&& chosen->0.fallback_reason == reason->0
            }
            &&& chosen is Some && reason is None ==> {
                &&& chosen->0.format == TextureFormat::Rgba16Float
                &&& chosen->0.output.extended_linear
                &&& chosen->0.output == OutputDescription::of_extended_linear(
                    requested.requested_headroom(),
                    multiply,
                )
                &&& chosen->0.fallback_reason == OutputFallbackReason::NotNeeded
            }
        }),
{
}

/// Frames are presented first in, first out where that is offered, and else in the
/// first way that is. Video with alpha is composed premultiplied and video without is
/// opaque where that is offered, and else in the first way that is.
pub proof fn lemma_presentation_modes_are_preferred(
    present: Seq<PresentMode>,
    alpha: Seq<CompositeAlphaMode>,
)
    ensures
        present.contains(PresentMode::Fifo) ==> present_mode(present) == Some(PresentMode::Fifo),
        !present.contains(PresentMode::Fifo) && present.len() > 0 ==> present_mode(present)
            == Some(present[0]),
        present.len() == 0 ==> present_mode(present) is None,
        alpha.contains(CompositeAlphaMode::PreMultiplied) ==> alpha_mode(alpha, true) == Some(
            CompositeAlphaMode::PreMultiplied,
        ),
        alpha.contains(CompositeAlphaMode::Opaque) ==> alpha_mode(alpha, false) == Some(
            CompositeAlphaMode::Opaque,
        ),
        !alpha.contains(CompositeAlphaMode::PreMultiplied) && alpha.len() > 0 ==> alpha_mode(
            alpha,
            true,
        ) == Some(alpha[0]),
        !alpha.contains(CompositeAlphaMode::Opaque) && alpha.len() > 0 ==> alpha_mode(alpha, false)
            == Some(alpha[0]),
        alpha.len() == 0 ==> alpha_mode(alpha, true) is None && alpha_mode(alpha, false) is None,
{
}

/// A surface is attached on the platform that it is made for, and by a window that
/// there is, but for a Metal layer, which needs none.
pub proof fn lemma_surfaces_attach_on_their_platform(
    platform: Platform,
    handle: WgpuSurfaceHandle,
    surface: PlatformSurface,
)
    ensures
        wired(Platform::Apple, handle.kind) <==> handle.kind == WgpuSurfaceKind::MacOsCaMetalLayer,
        wired(Platform::Windows, handle.kind) <==> handle.kind == WgpuSurfaceKind::WindowsHwnd,
        wired(Platform::Android, handle.kind) <==> handle.kind
            == WgpuSurfaceKind::AndroidNativeWindow,
        wired(Platform::Ohos, handle.kind) <==> handle.kind == WgpuSurfaceKind::OhosNativeWindow,
        !wired(Platform::Other, handle.kind),
        !(surface is Wgpu) ==> surface_check(platform, surface) == Err::<
            WgpuSurfaceHandle,
            SurfaceError,
        >(SurfaceError::NotWgpu),
        ({
            let checked = surface_check(platform, PlatformSurface::Wgpu { handle });
            let null = handle.kind != WgpuSurfaceKind::MacOsCaMetalLayer && handle.raw_window == 0;
            &&& !wired(platform, handle.kind) ==> checked == Err::<WgpuSurfaceHandle, SurfaceError>(
                SurfaceError::KindNotWired { kind: handle.kind },
            )
            &&& wired(platform, handle.kind) && null ==> checked == Err::<
                WgpuSurfaceHandle,
                SurfaceError,
            >(SurfaceError::NullWindow { kind: handle.kind })
            &&& wired(platform, handle.kind) && !null ==> checked == Ok::<
                WgpuSurfaceHandle,
                SurfaceError,
            >(handle)
        }),
{
}

/// How a surface is configured: in the format and output that were selected, at the
/// handle's own size, with the modes that were preferred. An extended linear output
/// gets the headroom that can be used. What is missing is told in this order: a
/// standard format, a way to present, a way to compose.
pub proof fn lemma_surface_is_configured_as_selected<
    M: Fn(FloatBits, FloatBits) -> FloatBits,
>(
    renderer: WgpuRenderer,
    handle: WgpuSurfaceHandle,
    backend: Backend,
    formats: Seq<TextureFormat>,
    present_modes: Seq<PresentMode>,
    alpha_modes: Seq<CompositeAlphaMode>,
    multiply: M,
)
    ensures
        ({
            let plan = planned(
                renderer,
                handle,
                backend,
                formats,
                present_modes,
                alpha_modes,
                multiply,
            );
            let chosen = selection(
                renderer.output_mode,
                handle.output_capabilities,
                backend,
                formats,
                multiply,
            );
            let present = present_mode(present_modes);
            let alpha = alpha_mode(alpha_modes, renderer.video_has_alpha);
            &&& chosen is None ==> plan == Err::<AttachedSurface, SurfaceError>(
                SurfaceError::NoSdrFormat,
            )
            &&& chosen is Some && present is None ==> plan == Err::<AttachedSurface, SurfaceError>(
                SurfaceError::NoPresentMode,
            )
            &&& chosen is Some && present is Some && alpha is None ==> plan == Err::<
                AttachedSurface,
                SurfaceError,
            >(SurfaceError::NoAlphaMode)
            &&& chosen is Some && present is Some && alpha is Some ==> {
                &&& plan matches Ok(attached)
                &&& attached.config.format == chosen->0.format
                &&& attached.config.width == handle.size.width
                &&& attached.config.height == handle.size.height
                &&& attached.config.present_mode == present->0
                &&& attached.config.alpha_mode == alpha->0
                &&& attached.sdr_format == chosen->0.sdr_format
                &&& attached.fallback_reason == chosen->0.fallback_reason
                &&& !attached.data_space_failure
                &&& attached.native_data_space == -1
                &&& attached.handle == handle
                &&& !chosen->0.output.extended_linear ==> attached.output == chosen->0.output
                &&& chosen->0.output.extended_linear ==> attached.output
                    == OutputDescription::of_extended_linear(
                    effective_headroom(
                        renderer.output_mode,
                        handle.output_capabilities,
                        renderer.output_headroom,
                    ),
                    multiply,
                )
            }
        }),
{
}

/// The data space of a window is verified on Android for an extended linear output. A
/// verified one is remembered as it was read back; one that fails has the surface fall
/// back to the standard output in its standard format.
pub proof fn lemma_data_space_decides_the_output(
    platform: Platform,
    attached: AttachedSurface,
    verified: AndroidDataSpaceVerification,
    kind: AndroidDataSpaceErrorKind,
)
    ensures
        verifies_data_space(platform, attached) <==> platform == Platform::Android
            && attached.output.extended_linear,
        attached.checked(Ok(verified)) == (AttachedSurface {
            native_data_space: verified.after,
            ..attached
        }),
        ({
            let fallen = attached.checked(Err(kind));
            &&& fallen.config.format == attached.sdr_format
            &&& fallen.config.width == attached.config.width
            &&& fallen.config.height == attached.config.height
            &&& fallen.config.present_mode == attached.config.present_mode
            &&& fallen.config.alpha_mode == attached.config.alpha_mode
            &&& fallen.output == OutputDescription::of_sdr()
            &&& fallen.data_space_failure
            &&& fallen.native_data_space == -1
            &&& fallen.handle == attached.handle
            &&& kind == AndroidDataSpaceErrorKind::ApiUnavailable ==> fallen.fallback_reason
                == OutputFallbackReason::NativeWindowDataSpaceApiUnavailable
            &&& kind == AndroidDataSpaceErrorKind::VerificationFailed ==> fallen.fallback_reason
                == OutputFallbackReason::ScrgbDataSpaceVerificationFailed
            &&& fallen.fallback_reason == data_space_reason(kind)
        }),
{
}

/// What is told of an attached output: how it is encoded, in which format, and with
/// what headroom, the display's where that is known and else the output's own. A
/// fallback is counted where it is one and is to be counted; what was asked for stays.
pub proof fn lemma_attached_output_is_told_as_it_is(
    status: OutputRuntimeStatus,
    headroom: OutputHeadroomState,
    attached: AttachedSurface,
    count_fallback: bool,
)
    requires
        status.fallback_count < u64::MAX,
        status.data_space_failures < u64::MAX,
    ensures
        ({
            let told = attached_status(status, headroom, attached, count_fallback);
            let extended = attached.output.extended_linear;
            let fell_back = attached.fallback_reason != OutputFallbackReason::NotNeeded;
            &&& told.extended_linear_active == extended
            &&& extended ==> told.active_encoding
                == ActiveOutputEncoding::AndroidExtendedLinearScRgb
            &&& !extended ==> told.active_encoding == ActiveOutputEncoding::SdrSrgb
            &&& told.surface_format == attached.output.surface_format
            &&& told.native_data_space == attached.native_data_space
            &&& !extended ==> told.active_headroom == 0x3f80_0000 && told.active_headroom_known
            &&& extended && headroom.known ==> told.active_headroom == headroom.headroom
                && told.active_headroom_known
            &&& extended && !headroom.known ==> told.active_headroom == at_least(
                attached.output.target.edr_headroom,
                0x3f80_0000,
            ) && !told.active_headroom_known
            &&& told.fallback_reason == attached.fallback_reason
            &&& told.fallback_count == status.fallback_count + (if count_fallback && fell_back {
                1int
            } else {
                0
            })
            &&& told.data_space_failures == status.data_space_failures + (if count_fallback
                && attached.data_space_failure {
                1int
            } else {
                0
            })
            &&& told.requested_mode == status.requested_mode
            &&& told.requested_headroom == status.requested_headroom
            &&& told.headroom_updates == status.headroom_updates
            &&& told.extended_linear_frames == status.extended_linear_frames
        }),
        ({
            let told = detached_status(status);
            &&& told.active_encoding == ActiveOutputEncoding::SdrSrgb
            &&& told.surface_format == OutputSurfaceFormat::EightBitUnorm
            &&& told.native_data_space == -1
            &&& told.active_headroom == 0x3f80_0000
            &&& !told.active_headroom_known
            &&& !told.extended_linear_active
            &&& told.fallback_reason == status.fallback_reason
            &&& told.fallback_count == status.fallback_count
            &&& told.data_space_failures == status.data_space_failures
            &&& told.headroom_updates == status.headroom_updates
            &&& told.extended_linear_frames == status.extended_linear_frames
            &&& told.requested_mode == status.requested_mode
            &&& told.requested_headroom == status.requested_headroom
        }),
{
}

/// A headroom that the display reports is taken over at once where the output is
/// extended linear, and only remembered where it is not. An update is counted in the
/// mode that asks for one.
pub proof fn lemma_reported_headroom_reaches_the_output<
    M: Fn(FloatBits, FloatBits) -> FloatBits,
>(renderer: WgpuRenderer, state: OutputHeadroomState, count_update: bool, multiply: M)
    requires
        renderer.output_status.headroom_updates < u64::MAX,
    ensures
        ({
            let after = renderer.with_headroom(state, count_update, multiply);
            let attached = renderer.surface->0;
            let extended = renderer.surface is Some && attached.output.extended_linear;
            let effective = effective_headroom(
                renderer.output_mode,
                attached.handle.output_capabilities,
                state,
            );
            &&& after.output_headroom == state
            &&& !extended ==> after.surface == renderer.surface
            &&& !extended ==> after.output_status.active_headroom
                == renderer.output_status.active_headroom
            &&& extended ==> after.surface == Some(
                AttachedSurface {
                    output: OutputDescription::of_extended_linear(effective, multiply),
                    ..attached
                },
            )
            &&& extended && state.known ==> after.output_status.active_headroom == state.headroom
            &&& extended && !state.known ==> after.output_status.active_headroom == effective
            &&& extended ==> after.output_status.active_headroom_known == state.known
            &&& after.output_status.headroom_updates == renderer.output_status.headroom_updates + (
            if count_update && renderer.output_mode is ExtendedLinear {
                1int
            } else {
                0
            })
            &&& after.current_video == renderer.current_video
            &&& after.stats == renderer.stats
            &&& after.output_mode == renderer.output_mode
        }),
{
}

/// Two headrooms are the same where they are less than a thousandth apart.
pub proof fn lemma_headrooms_differ_from_a_thousandth<
    N: Fn(FloatBits, FloatBits) -> FloatBits,
>(distance: N, left: FloatBits, right: FloatBits, apart: FloatBits)
    requires
        is_headroom_distance(distance),
        distance.ensures((left, right), apart),
    ensures
        same_headroom(distance, left, right) <==> apart < 0x3a83_126f,
{
}

/// The devices that are tried, in this order. On Android: Vulkan with shared hardware
/// buffers, Vulkan, GLES, and last Vulkan in software, the only one that may run on
/// the CPU. On OpenHarmony: Vulkan with native buffers where that is enabled, Vulkan,
/// GLES. Elsewhere: what the platform offers.
pub proof fn lemma_devices_are_tried_in_order(ohos_vulkan_video: bool, platform: Platform)
    ensures
        ({
            let android = candidates(Platform::Android, ohos_vulkan_video);
            &&& android.len() == 4
            &&& android[0].label@ == "vulkan-ahb"@ && android[0].android_ahb_interop
            &&& android[1].label@ == "vulkan"@ && android[2].label@ == "gles"@
            &&& android[3].label@ == "vulkan-software"@
            &&& forall|i: int|
                0 <= i < 4 ==> (#[trigger] android[i]).allow_cpu_adapter == (i == 3)
                    && android[i].force_fallback_adapter == (i == 3)
                    && android[i].android_ahb_interop == (i == 0)
                    && !android[i].ohos_native_buffer_interop && android[i].backends == if i == 2 {
                    Backends::Gl
                } else {
                    Backends::Vulkan
                }
        }),
        ({
            let ohos = candidates(Platform::Ohos, ohos_vulkan_video);
            let first = if ohos_vulkan_video {
                1int
            } else {
                0
            };
            &&& ohos.len() == 2 + first
            &&& ohos_vulkan_video ==> ohos[0].label@ == "ohos-vulkan-native-buffer"@
            &&& ohos[first].label@ == "ohos-vulkan"@
            &&& ohos[first + 1].label@ == "ohos-gles"@
            &&& forall|i: int|
                0 <= i < ohos.len() ==> (#[trigger] ohos[i]).ohos_native_buffer_interop == (i
                    < first) && !ohos[i].android_ahb_interop && !ohos[i].allow_cpu_adapter
                    && !ohos[i].force_fallback_adapter && ohos[i].backends == if i == first + 1 {
                    Backends::Gl
                } else {
                    Backends::Vulkan
                }
        }),
        platform != Platform::Android && platform != Platform::Ohos ==> ({
            let other = candidates(platform, ohos_vulkan_video);
            &&& other.len() == 1
            &&& other[0].label@ == "platform-default"@
            &&& other[0].backends == Backends::All
            &&& !other[0].force_fallback_adapter
            &&& !other[0].android_ahb_interop
            &&& !other[0].allow_cpu_adapter
            &&& !other[0].ohos_native_buffer_interop
        }),
{
}

/// A device is called by the label of its candidate, and unknown where there is none.
pub proof fn lemma_devices_are_called_by_their_label(
    list: Seq<WgpuBackendCandidate>,
    index: usize,
)
    ensures
        index < list.len() ==> label_at(list, index)@ == list[index as int].label@,
        index >= list.len() ==> label_at(list, index)@ == "unknown"@,
{
}

/// Texts are equal but for the case of their ASCII letters, of which a capital is 32
/// below its small letter; every other character counts as it is.
pub proof fn lemma_case_of_letters_is_ignored(c: char, text: Seq<char>)
    ensures
        'A' <= c <= 'Z' ==> ascii_lower(c) as u32 == c as u32 + 32,
        !('A' <= c <= 'Z') ==> ascii_lower(c) == c,
        equal_ignoring_case(text, text),
{
}

/// Candidates are tried from the start on, around to the one before it, each as many
/// places after the start as it comes after it.
pub proof fn lemma_candidates_go_round(count: usize, start: usize, step: int)
    requires
        0 < count,
        start < count,
        0 <= step < count,
    ensures
        rotation(count as nat, start as nat).len() == count,
        start + step < count ==> rotation(count as nat, start as nat)[step] == start + step,
        start + step >= count ==> rotation(count as nat, start as nat)[step] == start + step
            - count,
{
    let order = rotation(count as nat, start as nat);
    assert(start as int % count as int == start) by (nonlinear_arith)
        requires
            start < count,
    ;
    if start + step < count {
        assert((start + step) % count as int == start + step) by (nonlinear_arith)
            requires
                0 <= start + step < count,
        ;
    } else {
        assert((start + step) % count as int == start + step - count) by (nonlinear_arith)
            requires
                count <= start + step < 2 * count,
        ;
    }
}

/// After a device was lost the candidates are tried from the one behind it on.
pub proof fn lemma_recovery_starts_behind_the_lost_device(
    candidate_count: usize,
    active: usize,
    tried: Seq<usize>,
)
    requires
        active < candidate_count,
        active < usize::MAX,
    ensures
        remaining_order(candidate_count, active, tried) == rotation(
            candidate_count as nat,
            (active + 1) as nat,
        ).filter(|candidate: usize| !tried.contains(candidate)),
        next_sequence(0) == 1,
        forall|sequence: u64|
            sequence < u64::MAX ==> #[trigger] next_sequence(sequence) == sequence + 1,
{
}

/// A picture that fits its limits, or that has no area, keeps its size.
pub proof fn lemma_small_pictures_keep_their_size(
    source_width: u32,
    source_height: u32,
    max_width: u32,
    max_height: u32,
)
    ensures
        source_width <= max_width && source_height <= max_height && max_width > 0 && max_height > 0
            ==> fitted(source_width, source_height, max_width, max_height) == (
            source_width as int,
            source_height as int,
        ),
        source_width == 0 || source_height == 0 ==> fitted(
            source_width,
            source_height,
            max_width,
            max_height,
        ) == (source_width as int, source_height as int),
{
}

/// What is asked of a device: its adapter's own texture sizes and alignments, so that
/// large frames fit, and for the rest what every such device has, which on GLES
/// includes no computing.
pub proof fn lemma_adapters_own_texture_sizes_are_asked_for(adapter: DeviceLimits, backend: Backend)
    ensures
        ({
            let asked = requested_limits(adapter, backend);
            &&& asked.max_texture_dimension_1d == adapter.max_texture_dimension_1d
            &&& asked.max_texture_dimension_2d == adapter.max_texture_dimension_2d
            &&& asked.max_texture_dimension_3d == adapter.max_texture_dimension_3d
            &&& asked.min_uniform_buffer_offset_alignment
                == adapter.min_uniform_buffer_offset_alignment
            &&& asked.min_storage_buffer_offset_alignment
                == adapter.min_storage_buffer_offset_alignment
            &&& asked.max_uniform_buffer_binding_size == 16384
            &&& backend == Backend::Gl ==> asked.max_compute_invocations_per_workgroup == 0
            &&& backend == Backend::Gl ==> asked.max_compute_workgroup_storage_size == 0
            &&& backend == Backend::Gl ==> asked.max_compute_workgroups_per_dimension == 0
            &&& backend != Backend::Gl ==> asked.max_compute_invocations_per_workgroup == 256
            &&& backend != Backend::Gl ==> asked.max_compute_workgroup_storage_size == 16352
            &&& backend != Backend::Gl ==> asked.max_compute_workgroups_per_dimension == 65535
        }),
{
}

/// How a device is made from a candidate. One that shares buffers with decoders, on
/// the platform that it is for, is made at once; any other asks for an adapter of its
/// kind and then for its device, with 16-bit textures where the adapter has them. A
/// software Vulkan adapter is put off on Android unless the candidate allows it.
pub proof fn lemma_device_is_made_from_its_candidate(
    platform: Platform,
    candidate: WgpuBackendCandidate,
    index: usize,
    report: AdapterReport,
    limits: DeviceLimits,
    normal: bool,
)
    ensures
        wants_interop(platform, candidate) <==> (platform == Platform::Android
            && candidate.android_ahb_interop) || (platform == Platform::Ohos
            && candidate.ohos_native_buffer_interop),
        wants_interop(platform, candidate) ==> first_step(platform, candidate)
            == DeviceStep::CreateInteropDevice,
        !wants_interop(platform, candidate) ==> first_step(platform, candidate)
            == (DeviceStep::RequestAdapter {
            backends: candidate.backends,
            force_fallback_adapter: candidate.force_fallback_adapter,
        }),
        deferred(platform, candidate, report.device_type) <==> platform == Platform::Android
            && candidate.backends == Backends::Vulkan && report.device_type == DeviceType::Cpu
            && !candidate.allow_cpu_adapter,
        next_step(
            platform,
            candidate,
            index,
            DeviceStep::CreateInteropDevice,
            DeviceReply::InteropDevice { supports_16bit_norm: normal },
        ) == (DeviceStep::Created {
            device: DeviceOutcome {
                candidate_index: index,
                supports_16bit_norm: normal,
                interop: true,
            },
        }),
        ({
            let asked = DeviceStep::RequestAdapter {
                backends: candidate.backends,
                force_fallback_adapter: candidate.force_fallback_adapter,
            };
            let next = next_step(
                platform,
                candidate,
                index,
                asked,
                DeviceReply::Adapter { report },
            );
            &&& deferred(platform, candidate, report.device_type) ==> next == (DeviceStep::Failed {
                failure: DeviceFailure::SoftwareVulkanDeferred,
            })
            &&& !deferred(platform, candidate, report.device_type) ==> next
                == (DeviceStep::RequestDevice {
                require_16bit_norm: report.supports_16bit_norm,
                limits: requested_limits(report.limits, report.backend),
            })
        }),
        next_step(
            platform,
            candidate,
            index,
            DeviceStep::RequestDevice { require_16bit_norm: normal, limits },
            DeviceReply::Device,
        ) == (DeviceStep::Created {
            device: DeviceOutcome {
                candidate_index: index,
                supports_16bit_norm: normal,
                interop: false,
            },
        }),
        next_step(
            platform,
            candidate,
            index,
            DeviceStep::RequestDevice { require_16bit_norm: normal, limits },
            DeviceReply::Refused,
        ) == (DeviceStep::Failed { failure: DeviceFailure::DeviceRequestFailed }),
        next_step(
            platform,
            candidate,
            index,
            DeviceStep::CreateInteropDevice,
            DeviceReply::Refused,
        ) == (DeviceStep::Failed { failure: DeviceFailure::InteropUnavailable }),
{
}

/// What an operation's outcome means. A device that is unhealthy, before or after, or
/// that panicked is to be replaced; an error of the renderer is too where any failure
/// counts; and every other error is final.
pub proof fn lemma_unhealthy_devices_are_replaced(
    result: OperationResult,
    policy: AndroidWgpuRecoveryPolicy,
)
    ensures
        verdict(OperationEvent::UnhealthyBefore, policy) == OperationVerdict::Recoverable,
        verdict(OperationEvent::Panicked, policy) == OperationVerdict::Recoverable,
        verdict(OperationEvent::Returned { result, healthy_after: false }, policy)
            == OperationVerdict::Recoverable,
        verdict(
            OperationEvent::Returned { result: OperationResult::Succeeded, healthy_after: true },
            policy,
        ) == OperationVerdict::Succeeded,
        verdict(
            OperationEvent::Returned { result: OperationResult::OtherError, healthy_after: true },
            policy,
        ) == OperationVerdict::Final,
        policy == AndroidWgpuRecoveryPolicy::AnyRendererFailure ==> verdict(
            OperationEvent::Returned {
                result: OperationResult::RendererError,
                healthy_after: true,
            },
            policy,
        ) == OperationVerdict::Recoverable,
        policy != AndroidWgpuRecoveryPolicy::AnyRendererFailure ==> verdict(
            OperationEvent::Returned {
                result: OperationResult::RendererError,
                healthy_after: true,
            },
            policy,
        ) == OperationVerdict::Final,
{
}

/// A new device is in use once the surface is attached to it, where there is one, and
/// the frame was tried, where there is one, and the device is healthy after each. A
/// frame that is refused does no harm; a surface that is refused does.
pub proof fn lemma_new_device_needs_its_surface(surface: RestoreEvent, frame: RestoreEvent)
    ensures
        ({
            let attached = surface == RestoreEvent::Absent || surface
                == (RestoreEvent::Succeeded { healthy: true });
            let tried = frame == RestoreEvent::Absent || frame == (RestoreEvent::Succeeded {
                healthy: true,
            }) || frame == (RestoreEvent::Refused { healthy: true });
            restored(surface, frame) <==> attached && tried
        }),
        !restored(RestoreEvent::Refused { healthy: true }, frame),
        !restored(surface, RestoreEvent::Succeeded { healthy: false }),
        !restored(surface, RestoreEvent::Refused { healthy: false }),
{
}

/// Recovery goes on as long as a candidate is left that was not tried.
pub proof fn lemma_recovery_goes_on_while_candidates_are_left(
    renderer: AndroidRecoveringWgpuRenderer,
    tried: Seq<usize>,
)
    ensures
        tried.len() < renderer.candidate_count ==> renderer.goes_on(tried)
            == RecoveryStep::Rebuild,
        tried.len() >= renderer.candidate_count ==> renderer.goes_on(tried)
            == RecoveryStep::Exhausted,
{
}

/// A device that replaces a lost one takes over what was set: the platform, the output
/// mode, alpha, the upscaler and the display's headroom. It has no surface and no
/// frame yet, and everything else that recovery remembers stays.
pub proof fn lemma_replacement_keeps_the_settings<
    M: Fn(FloatBits, FloatBits) -> FloatBits,
    N: Fn(FloatBits, FloatBits) -> FloatBits,
>(
    renderer: AndroidRecoveringWgpuRenderer,
    device: DeviceOutcome,
    upscaler: UpscalerReport,
    multiply: M,
    distance: N,
)
    ensures
        ({
            let after = renderer.with_replacement(device, upscaler, multiply, distance);
            let fresh = after.active;
            &&& fresh.platform == renderer.active.platform
            &&& fresh.candidate_index == device.candidate_index
            &&& fresh.interop == device.interop
            &&& fresh.supports_16bit_norm == device.supports_16bit_norm
            &&& fresh.output_mode == renderer.active.output_mode
            &&& fresh.video_has_alpha == renderer.active.video_has_alpha
            &&& fresh.upscaler_mode == renderer.upscaler_mode
            &&& fresh.surface is None
            &&& fresh.current_video is None
            &&& !fresh.current_video_visible
            &&& fresh.stats == WgpuRendererStats::none_yet()
            &&& renderer.output_headroom.known ==> fresh.output_headroom == renderer.output_headroom
            &&& after.candidate_count == renderer.candidate_count
            &&& after.surface == renderer.surface
            &&& after.frame_cached == renderer.frame_cached
            &&& after.output_headroom == renderer.output_headroom
            &&& after.upscaler_mode == renderer.upscaler_mode
            &&& after.terminal_failure == renderer.terminal_failure
            &&& after.recovery_sequence == renderer.recovery_sequence
        }),
{
}

/// A new renderer is of its device, shows nothing and has counted nothing. What is
/// told of a renderer are its own counts, each under its name, beside what the
/// upscaler tells of itself.
pub proof fn lemma_report_tells_the_counts(
    renderer: WgpuRenderer,
    upscaler: UpscalerReport,
    platform: Platform,
    device: DeviceOutcome,
    output_mode: OutputMode,
    video_has_alpha: bool,
)
    ensures
        ({
            let told = renderer.runtime_report(upscaler);
            &&& told.surface_width == renderer.stats.surface_width
            &&& told.surface_height == renderer.stats.surface_height
            &&& told.rendered_frames == renderer.stats.rendered_frames
            &&& told.offscreen_frames == renderer.stats.offscreen_frames
            &&& told.software_video_frames == renderer.stats.software_video_frames
            &&& told.hardware_video_frames == renderer.stats.hardware_video_frames
            &&& told.zero_copy_video_frames == renderer.stats.zero_copy_video_frames
            &&& told.shared_handle_video_frames == renderer.stats.shared_handle_video_frames
            &&& told.cpu_video_frame_fallbacks == renderer.stats.cpu_video_frame_fallbacks
            &&& told.hdr_source_frames == renderer.stats.hdr_source_frames
            &&& told.sdr_tonemap_frames == renderer.stats.sdr_tonemap_frames
            &&& told.danmaku_passes == renderer.stats.danmaku_passes
            &&& told.attached == renderer.stats.attached
            &&& told.danmaku_draw_items == renderer.stats.danmaku_items
            &&& told.upscaler_mode == renderer.upscaler_mode
            &&& told.upscaler_backend == upscaler.status
            &&& told.upscaler_fallbacks == upscaler.fallback_count
            &&& told.upscaled_frames == upscaler.upscaled_frames
            &&& told.last_upscaler_encode_duration == upscaler.last_encode_duration
            &&& told.direct_zero_copy_video_frames == 0
            &&& told.hdr10_output_frames == 0
            &&& !told.hdr10_output_active
        }),
        ({
            let new = WgpuRenderer::of_device(platform, device, output_mode, video_has_alpha);
            &&& new.platform == platform
            &&& new.candidate_index == device.candidate_index
            &&& new.interop == device.interop
            &&& new.supports_16bit_norm == device.supports_16bit_norm
            &&& new.output_mode == output_mode
            &&& new.video_has_alpha == video_has_alpha
            &&& new.surface is None
            &&& new.current_video is None
            &&& !new.current_video_visible
            &&& new.upload_serial == 0
            &&& new.upscaler_mode == LumaUpscalerMode::Off
            &&& new.upscaler_failed_frame_token is None
            &&& !new.output_headroom.known
            &&& new.stats.surface_width == 0
            &&& new.stats.surface_height == 0
            &&& new.stats.rendered_frames == 0
            &&& new.stats.offscreen_frames == 0
            &&& new.stats.software_video_frames == 0
            &&& new.stats.hardware_video_frames == 0
            &&& new.stats.zero_copy_video_frames == 0
            &&& new.stats.shared_handle_video_frames == 0
            &&& new.stats.cpu_video_frame_fallbacks == 0
            &&& new.stats.hdr_source_frames == 0
            &&& new.stats.sdr_tonemap_frames == 0
            &&& new.stats.danmaku_passes == 0
            &&& new.stats.danmaku_items == 0
            &&& !new.stats.attached
        }),
{
}

/// The planes of a frame. Luma has a sample for each pixel and chroma two for each
/// square of four, rounded up; a sample of NV12 is one byte and of P010 two. Planes
/// that are not as large are refused, luma first, with the size that was expected.
pub proof fn lemma_planes_have_their_sizes(frame: PlanarFrame, bytes: nat, across: nat, down: nat)
    requires
        bytes == if frame.format == PlanarPixelFormat::P010 {
            2nat
        } else {
            1nat
        },
        2 * across == frame.width || 2 * across == frame.width + 1,
        2 * down == frame.height || 2 * down == frame.height + 1,
    ensures
        ({
            let checked = planes_check(frame);
            let luma = frame.width as nat * frame.height as nat * bytes;
            let chroma = across * down * 2 * bytes;
            let area = frame.width > 0 && frame.height > 0;
            &&& !area ==> checked == Err::<PlaneLayout, PlaneError>(PlaneError::ZeroSize)
            &&& area && frame.luma@.len() != luma ==> checked == Err::<PlaneLayout, PlaneError>(
                PlaneError::LumaSize {
                    actual: frame.luma@.len() as usize,
                    expected: luma as u128,
                },
            )
            &&& area && frame.luma@.len() == luma && frame.chroma@.len() != chroma ==> checked
                == Err::<PlaneLayout, PlaneError>(
                PlaneError::ChromaSize {
                    actual: frame.chroma@.len() as usize,
                    expected: chroma as u128,
                },
            )
            &&& area && frame.luma@.len() == luma && frame.chroma@.len() == chroma ==> {
                &&& checked matches Ok(layout)
                &&& layout.chroma_width == across
                &&& layout.chroma_height == down
                &&& layout.luma_bytes_per_row == frame.width * bytes
                &&& layout.chroma_bytes_per_row == across * 2 * bytes
            }
        }),
{
}

/// A frame is uploaded as it is, but for a P010 frame on a device without 16-bit
/// textures, which is uploaded as what it is converted to. The uniforms say whether
/// what is uploaded is P010, and are otherwise those that were given.
pub proof fn lemma_frames_are_uploaded_as_they_are<
    F,
    D: FnOnce(PlanarFrame) -> Result<PlanarFrame, F>,
>(
    frame: PlanarFrame,
    uniforms: VideoUniforms,
    supports_16bit_norm: bool,
    downconvert: D,
    prepared: Result<PreparedPlanarUpload, F>,
)
    requires
        prepares(frame, uniforms, supports_16bit_norm, downconvert, prepared),
    ensures
        ({
            let converted = frame.format == PlanarPixelFormat::P010 && !supports_16bit_norm;
            &&& !converted ==> {
                &&& prepared matches Ok(upload)
                &&& upload.frame == frame
                &&& upload.path == PlanarUploadPath::Native
            }
            &&& converted && prepared is Ok ==> {
                &&& downconvert.ensures((frame,), Ok(prepared->Ok_0.frame))
                &&& prepared->Ok_0.path == PlanarUploadPath::CpuP010ToNv12
            }
            &&& converted && prepared is Err ==> downconvert.ensures(
                (frame,),
                Err(prepared->Err_0),
            )
            &&& prepared is Ok ==> {
                let upload = prepared->Ok_0;
                &&& upload.frame.format == PlanarPixelFormat::P010 ==> upload.uniforms.is_p010 == 1
                &&& upload.frame.format == PlanarPixelFormat::Nv12 ==> upload.uniforms.is_p010 == 0
                &&& upload.uniforms == (VideoUniforms {
                    is_p010: upload.uniforms.is_p010,
                    ..uniforms
                })
            }
        }),
        for_format(uniforms, PlanarPixelFormat::P010).is_p010 == 1,
        for_format(uniforms, PlanarPixelFormat::Nv12).is_p010 == 0,
{
}

/// A frame is shown on an output by that output's own colours: for its target, linear
/// where it is extended, sampled as a texture of colours where the frame is one and
/// with its alpha in its right half where it has one.
pub proof fn lemma_frame_is_shown_for_its_output<
    G: Fn(ColorPrimaries, ColorPrimaries) -> GamutRows,
>(
    video: UploadedVideoFrame,
    output: OutputDescription,
    gamut: G,
    uniforms: VideoUniforms,
    source: SourceColorState,
)
    requires
        video.shows(output, gamut, uniforms),
        video.source_color == Some(source),
    ensures
        uniforms.nits@[0] == source.nominal_peak_nits,
        uniforms.nits@[1] == output.target.peak_nits,
        uniforms.nits@[2] == source.reference_white_nits,
        uniforms.nits@[3] == output.target.reference_white_nits,
        uniforms.edr_output == if output.extended_linear {
            1u32
        } else {
            0u32
        },
        uniforms.is_p010 == if video.uniforms.is_p010 != 0 {
            1u32
        } else {
            0u32
        },
        uniforms.scene_linear == 0,
        uniforms.input_mode == (if video.is_rgb {
            1u32
        } else {
            0u32
        }) | (video.uniforms.input_mode & 0x100),
{
    let mode = video.uniforms.input_mode;
    assert(mode & 0x100 == 0 || mode & 0x100 == 0x100) by (bit_vector);
    assert(((0u32 | 0x100) & !0xffu32) | 1 == 1u32 | 0x100) by (bit_vector);
    assert(((0u32 & !0x100u32) & !0xffu32) | 1 == 1u32 | 0) by (bit_vector);
    assert(0u32 | 0x100 == 0u32 | 0x100 && 0u32 & !0x100u32 == 0u32 | 0) by (bit_vector);
}

/// Where a decoded frame goes. What Android's or OpenHarmony's own decoder left in a
/// buffer of the device is shared on that platform; any other frame needs planes, and
/// one without them is of hardware that nothing can read, or of no planar format.
pub proof fn lemma_decoded_frames_go_their_way(platform: Platform, frame: DecodedFrame)
    ensures
        ({
            let shared = (platform == Platform::Android && frame.backend
                == DecoderBackend::MediaCodec && frame.is_mediacodec) || (platform
                == Platform::Ohos && frame.backend == DecoderBackend::AvCodec
                && frame.is_ohos_avcodec_surface);
            &&& route(platform, frame) == FrameRoute::SharedBuffer <==> shared
            &&& route(platform, frame) == FrameRoute::Planes <==> !shared && frame.has_planes
            &&& route(platform, frame) == FrameRoute::HardwareWithoutInterop <==> !shared
                && !frame.has_planes && frame.has_hw_frames_context
            &&& route(platform, frame) == FrameRoute::NotPlanar <==> !shared && !frame.has_planes
                && !frame.has_hw_frames_context
        }),
{
}

/// What a decoded frame counts as: planes of a software decoder as software, planes of
/// a hardware decoder as hardware that had to come by way of the CPU, and hardware
/// that cannot be read as hardware. A frame counts once and as nothing else.
pub proof fn lemma_decoded_frames_count_once(stats: WgpuRendererStats, frame: DecodedFrame)
    requires
        stats.has_room(),
    ensures
        frame.backend == DecoderBackend::Software ==> routed_stats(stats, frame, FrameRoute::Planes)
            == (WgpuRendererStats {
            software_video_frames: (stats.software_video_frames + 1) as u64,
            ..stats
        }),
        frame.backend != DecoderBackend::Software ==> routed_stats(stats, frame, FrameRoute::Planes)
            == (WgpuRendererStats {
            hardware_video_frames: (stats.hardware_video_frames + 1) as u64,
            cpu_video_frame_fallbacks: (stats.cpu_video_frame_fallbacks + 1) as u64,
            ..stats
        }),
        routed_stats(stats, frame, FrameRoute::HardwareWithoutInterop) == (WgpuRendererStats {
            hardware_video_frames: (stats.hardware_video_frames + 1) as u64,
            ..stats
        }),
        routed_stats(stats, frame, FrameRoute::SharedBuffer) == stats,
        routed_stats(stats, frame, FrameRoute::NotPlanar) == stats,
{
}

/// How a shared buffer is read: by the device where it can, and else, on OpenHarmony,
/// as a native image where there is one. Which decoders share with the renderer
/// follows from that. Only a full queue is no fault of the renderer.
pub proof fn lemma_shared_buffers_are_read(
    renderer: WgpuRenderer,
    native_buffer_surface: bool,
    native_image: bool,
    error: SharedBufferError,
)
    ensures
        ({
            let way = renderer.shared_buffer_way(native_image);
            let ohos = renderer.platform == Platform::Ohos;
            &&& renderer.interop ==> way == Ok::<SharedBufferRoute, SharedBufferError>(
                SharedBufferRoute::NativeBuffer,
            )
            &&& !renderer.interop && !ohos ==> way == Err::<SharedBufferRoute, SharedBufferError>(
                SharedBufferError::NativeBufferInteropMissing,
            )
            &&& !renderer.interop && ohos && native_image ==> way == Ok::<
                SharedBufferRoute,
                SharedBufferError,
            >(SharedBufferRoute::NativeImage)
            &&& !renderer.interop && ohos && !native_image ==> way == Err::<
                SharedBufferRoute,
                SharedBufferError,
            >(SharedBufferError::NativeImageInteropMissing)
        }),
        ({
            let shares = renderer.shares_with_decoders(native_buffer_surface, native_image);
            &&& renderer.platform == Platform::Android ==> (shares <==> renderer.interop)
            &&& renderer.platform == Platform::Ohos ==> (shares <==> (renderer.interop
                && native_buffer_surface) || native_image)
            &&& renderer.platform != Platform::Android && renderer.platform != Platform::Ohos
                ==> !shares
        }),
        error == SharedBufferError::Backpressure ==> error.class() == OperationResult::OtherError,
        error != SharedBufferError::Backpressure ==> error.class()
            == OperationResult::RendererError,
{
}

/// A shared picture counts as hardware, as copied nowhere and as shared; its source is
/// counted as HDR where it is, and as tone mapped where an HDR source is brighter than
/// a standard output can show.
pub proof fn lemma_shared_picture_is_counted<E: Fn(FloatBits, FloatBits, FloatBits) -> bool>(
    renderer: WgpuRenderer,
    video: UploadedVideoFrame,
    source: SourceColorState,
    exceeds: E,
)
    requires
        renderer.stats.has_room(),
    ensures
        ({
            let after = renderer.with_shared_picture(video);
            &&& after.stats.hardware_video_frames == renderer.stats.hardware_video_frames + 1
            &&& after.stats.zero_copy_video_frames == renderer.stats.zero_copy_video_frames + 1
            &&& after.stats.shared_handle_video_frames == renderer.stats.shared_handle_video_frames
                + 1
            &&& after.stats.software_video_frames == renderer.stats.software_video_frames
            &&& after.stats.cpu_video_frame_fallbacks == renderer.stats.cpu_video_frame_fallbacks
            &&& after.current_video == Some(video)
            &&& after.current_video_visible
            &&& after.upload_serial == video.frame_token
        }),
        ({
            let after = renderer.with_source_counted(source, exceeds);
            let output = renderer.output();
            let hdr = source.hdr(exceeds);
            let mapped = hdr && !output.extended_linear && tone_mapping_required(
                source,
                output.target,
                exceeds,
            );
            &&& hdr ==> after.stats.hdr_source_frames == renderer.stats.hdr_source_frames + 1
            &&& !hdr ==> after.stats.hdr_source_frames == renderer.stats.hdr_source_frames
            &&& mapped ==> after.stats.sdr_tonemap_frames == renderer.stats.sdr_tonemap_frames + 1
            &&& !mapped ==> after.stats.sdr_tonemap_frames == renderer.stats.sdr_tonemap_frames
            &&& after.stats.rendered_frames == renderer.stats.rendered_frames
            &&& after.current_video == renderer.current_video
            &&& after.surface == renderer.surface
        }),
        renderer.surface is None ==> renderer.output() == OutputDescription::of_sdr(),
        renderer.surface matches Some(attached) ==> renderer.output() == attached.output,
        ({
            let after = renderer.with_video(video);
            &&& after.current_video == Some(video)
            &&& after.current_video_visible
            &&& after.upload_serial == video.frame_token
            &&& after.stats == renderer.stats
            &&& after.surface == renderer.surface
        }),
{
}

/// A shared picture that is shown is a texture of colours of the size and colours that
/// were given, under the next number, with its right half as alpha where the video has
/// alpha.
pub proof fn lemma_shared_picture_is_a_texture_of_colors<
    E: Fn(FloatBits, FloatBits, FloatBits) -> bool,
    G: Fn(ColorPrimaries, ColorPrimaries) -> GamutRows,
>(
    renderer: WgpuRenderer,
    width: u32,
    height: u32,
    source: SourceColorState,
    exceeds: E,
    gamut: G,
    after: WgpuRenderer,
)
    requires
        renderer.shared_picture_shown(width, height, source, exceeds, gamut, after),
        renderer.upload_serial < u64::MAX,
    ensures
        after.current_video is Some,
        ({
            let video = after.current_video->0;
            &&& video.is_rgb
            &&& video.width == width
            &&& video.height == height
            &&& video.source_color == Some(source)
            &&& video.frame_token == renderer.upload_serial + 1
            &&& video.uniforms.is_p010 == 0
            &&& video.uniforms.scene_linear == 0
            &&& video.uniforms.input_mode == if renderer.video_has_alpha {
                0x101u32
            } else {
                1u32
            }
            &&& video.uniforms.nits@[0] == source.nominal_peak_nits
            &&& video.uniforms.nits@[1] == renderer.output().target.peak_nits
        }),
        after.current_video_visible,
        forall|serial: u64| serial < u64::MAX ==> #[trigger] next_serial(serial) == serial + 1,
{
    assert(((0u32 | 0x100) & !0xffu32) | 1 == 0x101) by (bit_vector);
    assert(((0u32 & !0x100u32) & !0xffu32) | 1 == 1) by (bit_vector);
}

/// Luma is upscaled where the video has no alpha, upscaling is on and ready, the
/// picture is shown wider than it is, and it did not fail on this frame before.
pub proof fn lemma_upscaling_is_for_enlarged_opaque_video(
    renderer: WgpuRenderer,
    video: UploadedVideoFrame,
    viewport: PresentationRect,
    status: LumaUpscalerBackendStatus,
)
    ensures
        renderer.upscales(video, viewport, status) <==> !renderer.video_has_alpha
            && renderer.upscaler_mode != LumaUpscalerMode::Off && status
            == LumaUpscalerBackendStatus::Scalar && viewport.width.numerator > video.width
            * viewport.width.denominator && renderer.upscaler_failed_frame_token != Some(
            video.frame_token,
        ),
{
}

/// An upscaler is switched where another mode is wanted, or where the device does not
/// run the wanted one: scalar for a mode that is on, off for none.
pub proof fn lemma_upscaler_is_switched_when_it_differs(
    current: LumaUpscalerMode,
    mode: LumaUpscalerMode,
    device_mode: LumaUpscalerMode,
    status: LumaUpscalerBackendStatus,
)
    ensures
        mode != current ==> upscaler_switch_needed(current, mode, device_mode, status),
        device_mode != mode ==> upscaler_switch_needed(current, mode, device_mode, status),
        mode == LumaUpscalerMode::Off && current == mode && device_mode == mode ==> (
        upscaler_switch_needed(current, mode, device_mode, status) <==> status
            != LumaUpscalerBackendStatus::Off),
        mode != LumaUpscalerMode::Off && current == mode && device_mode == mode ==> (
        upscaler_switch_needed(current, mode, device_mode, status) <==> status
            != LumaUpscalerBackendStatus::Scalar),
{
}

/// Comments are drawn over a frame where they were made for its generation and, as far
/// as the sides are known, for its size. A side of zero is not known.
pub proof fn lemma_comments_are_of_the_frames_generation(
    context: RenderFrameContext<'_>,
    plan: &DanmakuRenderPlan,
    width: Option<u32>,
    height: Option<u32>,
)
    requires
        context.danmaku == Some(plan),
    ensures
        ({
            let fits = plan.generation == context.generation && (width is None
                || plan.viewport.width == width->0) && (height is None || plan.viewport.height
                == height->0);
            &&& fits ==> fitting_danmaku(context, width, height) == Some(plan)
            &&& !fits ==> fitting_danmaku(context, width, height) is None
        }),
        known_side(0) is None,
        forall|side: u32| side > 0 ==> #[trigger] known_side(side) == Some(side),
{
}

/// Something is drawn over a frame where there is a plane, a bitmap or a glyph.
pub proof fn lemma_overlays_have_something_to_draw(
    context: RenderFrameContext<'_>,
    danmaku: Option<&DanmakuRenderPlan>,
)
    ensures
        context.overlay is None && danmaku is None ==> !has_overlays(context, danmaku),
        context.overlay matches Some(overlay) && overlay.subtitle_planes@.len() > 0
            ==> has_overlays(context, danmaku),
        context.overlay matches Some(overlay) && overlay.subtitle_alpha_planes@.len() > 0
            ==> has_overlays(context, danmaku),
        danmaku matches Some(plan) && plan.items@.len() > 0 ==> has_overlays(context, danmaku),
        (context.overlay is None || (context.overlay->0.subtitle_planes@.len() == 0
            && context.overlay->0.subtitle_alpha_planes@.len() == 0)) && (danmaku is None
            || danmaku->0.items@.len() == 0) ==> !has_overlays(context, danmaku),
{
}

/// A drawn frame is counted once, as offscreen too where it was, and the comments over
/// it as one pass, where there are any, of as many items as were drawn.
pub proof fn lemma_drawn_frame_is_counted(
    stats: WgpuRendererStats,
    danmaku_draws: u64,
    offscreen: bool,
)
    requires
        stats.has_room(),
        stats.danmaku_items + danmaku_draws <= u64::MAX,
    ensures
        ({
            let after = drawn_stats(stats, danmaku_draws, offscreen);
            &&& after.rendered_frames == stats.rendered_frames + 1
            &&& offscreen ==> after.offscreen_frames == stats.offscreen_frames + 1
            &&& !offscreen ==> after.offscreen_frames == stats.offscreen_frames
            &&& danmaku_draws > 0 ==> after.danmaku_passes == stats.danmaku_passes + 1
            &&& danmaku_draws == 0 ==> after.danmaku_passes == stats.danmaku_passes
            &&& after.danmaku_items == stats.danmaku_items + danmaku_draws
            &&& after == (WgpuRendererStats {
                rendered_frames: after.rendered_frames,
                offscreen_frames: after.offscreen_frames,
                danmaku_passes: after.danmaku_passes,
                danmaku_items: after.danmaku_items,
                ..stats
            })
        }),
{
}

/// There is a frame to draw where one was uploaded and not hidden since.
pub proof fn lemma_visible_frame_is_drawn(renderer: WgpuRenderer)
    ensures
        renderer.has_frame() <==> renderer.current_video is Some && renderer.current_video_visible,
{
}

/// The records of a batch stand a stride apart, each from its first byte on, and
/// between them are zeros.
pub proof fn lemma_records_stand_a_stride_apart(
    records: Seq<Vec<u8>>,
    size: int,
    stride: int,
    record: int,
    byte: int,
)
    requires
        0 < size <= stride,
        0 <= record < records.len(),
        0 <= byte < stride,
    ensures
        byte < size ==> batch_byte(records, size, stride, record * stride + byte)
            == records[record]@[byte],
        byte >= size ==> batch_byte(records, size, stride, record * stride + byte) == 0,
{
    vstd::arithmetic::div_mod::lemma_fundamental_div_mod_converse(
        record * stride + byte,
        stride,
        record,
        byte,
    );
}

/// A picture that is read back has its rows one after the other without what the
/// device put between them, and its pixels four bytes each.
pub proof fn lemma_readback_is_row_after_row(
    mapped: Seq<u8>,
    row_bytes: int,
    padded: int,
    rows: int,
    row: int,
    byte: int,
    picture: WgpuOffscreenReadback,
    x: u32,
    y: u32,
)
    requires
        0 < row_bytes <= padded,
        0 <= row < rows,
        0 <= byte < row_bytes,
    ensures
        without_padding(mapped, row_bytes, padded, rows).len() == rows * row_bytes,
        0 <= row * row_bytes + byte < rows * row_bytes,
        without_padding(mapped, row_bytes, padded, rows)[row * row_bytes + byte] == mapped[row
            * padded + byte],
        picture.offset(0, 0) == 0,
        x < u32::MAX ==> picture.offset((x + 1) as u32, y) == picture.offset(x, y) + 4,
        y < u32::MAX ==> picture.offset(x, (y + 1) as u32) == picture.offset(x, y) + 4
            * picture.width,
{
    vstd::arithmetic::div_mod::lemma_fundamental_div_mod_converse(
        row * row_bytes + byte,
        row_bytes,
        row,
        byte,
    );
    assert(row * row_bytes + byte < rows * row_bytes && row * row_bytes >= 0 && rows * row_bytes
        >= 0) by (nonlinear_arith)
        requires
            0 <= row < rows,
            0 <= byte < row_bytes,
    ;
    assert((y + 1) * picture.width == y * picture.width + picture.width) by (nonlinear_arith);
    assert(0 * picture.width == 0) by (nonlinear_arith);
}

/// Where a surface offers none of the preferred formats, its first that is not of
/// floats is taken.
pub proof fn lemma_first_other_format_is_taken(formats: Seq<TextureFormat>, first: int)
    requires
        0 <= first < formats.len(),
        formats[first] != TextureFormat::Rgba16Float,
        forall|i: int| 0 <= i < first ==> #[trigger] formats[i] == TextureFormat::Rgba16Float,
    ensures
        first_fixed_point(formats) == Some(formats[first]),
    decreases formats.len(),
{
    if first > 0 {
        assert(formats[0] == TextureFormat::Rgba16Float);
        let rest = formats.drop_first();
        assert forall|i: int| 0 <= i < first - 1 implies #[trigger] rest[i]
            == TextureFormat::Rgba16Float by {
            assert(rest[i] == formats[i + 1]);
        }
        assert(rest[first - 1] == formats[first]);
        lemma_first_other_format_is_taken(rest, first - 1);
    }
}

/// The candidate that is tried is the one behind those that failed, until one is
/// selected or none is left.
pub proof fn lemma_next_candidate_is_behind_the_failures(search: CandidateSearchView)
    ensures
        search.selected is Some ==> search.current() is None,
        search.selected is None && search.failures.len() < search.order.len() ==> search.current()
            == Some(search.order[search.failures.len() as int]),
        search.failures.len() >= search.order.len() ==> search.current() is None,
{
}

/// A limit of zero counts as one.
pub proof fn lemma_limit_of_zero_is_one(
    source_width: u32,
    source_height: u32,
    max_width: u32,
    max_height: u32,
)
    ensures
        fitted(source_width, source_height, 0, max_height) == fitted(
            source_width,
            source_height,
            1,
            max_height,
        ),
        fitted(source_width, source_height, max_width, 0) == fitted(
            source_width,
            source_height,
            max_width,
            1,
        ),
{
}

/// A surface that was outdated or lost counts as recovered once more.
pub proof fn lemma_each_recovery_of_a_surface_counts_once(acquisition: SurfaceAcquisition)
    requires
        acquisition.recoveries < u32::MAX,
    ensures
        acquisition.recovered().recoveries == acquisition.recoveries + 1,
{
}

} // verus!
