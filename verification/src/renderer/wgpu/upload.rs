//! Video frames that are uploaded to the device.

use crate::color::ColorPrimaries;
use crate::float::FloatBits;
use crate::renderer::frame::{
    converts, is_gamut, uniforms_for, DecoderBackend, GamutRows,
};
use crate::renderer::output::OutputDescription;
use crate::renderer::pipeline::{
    flag, is_exceeds, is_packed_alpha, requires_tone_mapping, tone_mapping_required,
    with_base_mode, with_packed_alpha, SourceColorState, VideoUniforms,
};
use crate::renderer::wgpu::backend::{fit_extent_without_upscale, fitted, Platform};
use crate::renderer::wgpu::recovery::{
    verdict, AndroidWgpuRecoveryPolicy, OperationEvent, OperationResult, OperationVerdict,
};
use crate::renderer::wgpu::{WgpuRenderer, WgpuRendererStats};
use vstd::prelude::*;

verus! {

/// The layouts of video planes: luma, then Cb and Cr interleaved at half the
/// resolution.
#[derive(Debug, Clone, Copy, PartialEq, Eq, Structural)]
pub enum PlanarPixelFormat {
    /// Eight bits a sample.
    Nv12,
    /// Ten bits in the upper bits of sixteen.
    P010,
}

impl PlanarPixelFormat {
    pub open spec fn sample_bytes(self) -> nat {
        match self {
            PlanarPixelFormat::Nv12 => 1,
            PlanarPixelFormat::P010 => 2,
        }
    }
}

/// Tightly packed video planes.
#[derive(Debug, Clone, PartialEq, Eq)]
pub struct PlanarFrame {
    pub format: PlanarPixelFormat,
    pub width: u32,
    pub height: u32,
    pub luma: Vec<u8>,
    pub chroma: Vec<u8>,
}

/// How planes reach the device.
#[derive(Debug, Clone, Copy, PartialEq, Eq, Structural)]
pub enum PlanarUploadPath {
    Native,
    /// Ten-bit planes were reduced to eight bits first.
    CpuP010ToNv12,
}

#[derive(Debug)]
pub struct PreparedPlanarUpload {
    pub frame: PlanarFrame,
    pub uniforms: VideoUniforms,
    pub path: PlanarUploadPath,
}

/// Whether a frame has to be reduced to eight bits.
pub open spec fn needs_conversion(frame: PlanarFrame, supports_16bit_norm: bool) -> bool {
    frame.format == PlanarPixelFormat::P010 && !supports_16bit_norm
}

/// Uniforms for planes of a format.
pub open spec fn for_format(uniforms: VideoUniforms, format: PlanarPixelFormat) -> VideoUniforms {
    VideoUniforms { is_p010: flag(format == PlanarPixelFormat::P010), ..uniforms }
}

/// What comes of preparing a frame.
pub open spec fn prepares<F, D: FnOnce(PlanarFrame) -> Result<PlanarFrame, F>>(
    frame: PlanarFrame,
    uniforms: VideoUniforms,
    supports_16bit_norm: bool,
    downconvert: D,
    prepared: Result<PreparedPlanarUpload, F>,
) -> bool {
    if needs_conversion(frame, supports_16bit_norm) {
        match prepared {
            Ok(prepared) => {
                &&& downconvert.ensures((frame,), Ok(prepared.frame))
                &&& prepared.path == PlanarUploadPath::CpuP010ToNv12
                &&& prepared.uniforms == for_format(uniforms, prepared.frame.format)
            },
            Err(failure) => downconvert.ensures((frame,), Err(failure)),
        }
    } else {
        prepared matches Ok(prepared) && {
            &&& prepared.frame == frame
            &&& prepared.path == PlanarUploadPath::Native
            &&& prepared.uniforms == for_format(uniforms, frame.format)
        }
    }
}

/// Prepares planes for the device. Ten-bit planes are reduced to eight bits
/// exactly where the device has no 16-bit normalised textures; the colour
/// description stays.
pub fn prepare_planar_upload<F, D: FnOnce(PlanarFrame) -> Result<PlanarFrame, F>>(
    frame: PlanarFrame,
    uniforms: VideoUniforms,
    supports_16bit_norm: bool,
    downconvert: D,
) -> (prepared: Result<PreparedPlanarUpload, F>)
    requires
        needs_conversion(frame, supports_16bit_norm) ==> downconvert.requires((frame,)),
    ensures
        prepares(frame, uniforms, supports_16bit_norm, downconvert, prepared),
{
    let (frame, path) = if frame.format == PlanarPixelFormat::P010 && !supports_16bit_norm {
        match downconvert(frame) {
            Ok(converted) => (converted, PlanarUploadPath::CpuP010ToNv12),
            Err(failure) => {
                return Err(failure);
            },
        }
    } else {
        (frame, PlanarUploadPath::Native)
    };
    let is_p010: u32 = if frame.format == PlanarPixelFormat::P010 {
        1
    } else {
        0
    };
    Ok(PreparedPlanarUpload { frame, uniforms: VideoUniforms { is_p010, ..uniforms }, path })
}

/// Half of a side, rounded up.
pub open spec fn half(side: u32) -> nat {
    ((side + 1) / 2) as nat
}

/// The bytes of a luma plane.
pub open spec fn luma_size(format: PlanarPixelFormat, width: u32, height: u32) -> nat {
    width as nat * height as nat * format.sample_bytes()
}

/// The bytes of an interleaved chroma plane.
pub open spec fn chroma_size(format: PlanarPixelFormat, width: u32, height: u32) -> nat {
    half(width) * half(height) * 2 * format.sample_bytes()
}

/// Why planes cannot be uploaded.
#[derive(Debug, Clone, Copy, PartialEq, Eq, Structural)]
pub enum PlaneError {
    ZeroSize,
    LumaSize { actual: usize, expected: u128 },
    ChromaSize { actual: usize, expected: u128 },
}

/// Where the rows of a frame's planes begin.
#[derive(Debug, Clone, Copy, PartialEq, Eq, Structural)]
pub struct PlaneLayout {
    pub chroma_width: u32,
    pub chroma_height: u32,
    pub luma_bytes_per_row: u64,
    pub chroma_bytes_per_row: u64,
}

pub open spec fn planes_check(frame: PlanarFrame) -> Result<PlaneLayout, PlaneError> {
    let luma = luma_size(frame.format, frame.width, frame.height);
    let chroma = chroma_size(frame.format, frame.width, frame.height);
    if frame.width == 0 || frame.height == 0 {
        Err(PlaneError::ZeroSize)
    } else if frame.luma@.len() != luma {
        Err(
            PlaneError::LumaSize {
                actual: frame.luma@.len() as usize,
                expected: luma as u128,
            },
        )
    } else if frame.chroma@.len() != chroma {
        Err(
            PlaneError::ChromaSize {
                actual: frame.chroma@.len() as usize,
                expected: chroma as u128,
            },
        )
    } else {
        Ok(
            PlaneLayout {
                chroma_width: half(frame.width) as u32,
                chroma_height: half(frame.height) as u32,
                luma_bytes_per_row: (frame.width * frame.format.sample_bytes()) as u64,
                chroma_bytes_per_row: (half(frame.width) * 2 * frame.format.sample_bytes()) as u64,
            },
        )
    }
}

/// Holds a frame's planes against its size.
pub fn check_planes(frame: &PlanarFrame) -> (layout: Result<PlaneLayout, PlaneError>)
    ensures
        layout == planes_check(*frame),
{
    if frame.width == 0 || frame.height == 0 {
        return Err(PlaneError::ZeroSize);
    }
    let sample_bytes: u128 = match frame.format {
        PlanarPixelFormat::Nv12 => 1,
        PlanarPixelFormat::P010 => 2,
    };
    let chroma_width: u32 = frame.width / 2 + frame.width % 2;
    let chroma_height: u32 = frame.height / 2 + frame.height % 2;
    assert(chroma_width == half(frame.width));
    assert(chroma_height == half(frame.height));
    proof {
        let w = frame.width as int;
        let h = frame.height as int;
        assert(0 <= w * h <= 0xffff_ffff * 0xffff_ffff) by (nonlinear_arith)
            requires
                0 <= w <= 0xffff_ffff,
                0 <= h <= 0xffff_ffff,
        ;
        let cw = chroma_width as int;
        let ch = chroma_height as int;
        assert(0 <= cw * ch <= 0xffff_ffff * 0xffff_ffff) by (nonlinear_arith)
            requires
                0 <= cw <= 0xffff_ffff,
                0 <= ch <= 0xffff_ffff,
        ;
        assert(w * h * 1 == w * h && cw * ch * 2 * 1 == cw * ch * 2);
    }
    let expected_luma: u128 = frame.width as u128 * frame.height as u128 * sample_bytes;
    let expected_chroma: u128 = chroma_width as u128 * chroma_height as u128 * 2 * sample_bytes;
    if frame.luma.len() as u128 != expected_luma {
        return Err(PlaneError::LumaSize { actual: frame.luma.len(), expected: expected_luma });
    }
    if frame.chroma.len() as u128 != expected_chroma {
        return Err(
            PlaneError::ChromaSize { actual: frame.chroma.len(), expected: expected_chroma },
        );
    }
    let sample: u64 = match frame.format {
        PlanarPixelFormat::Nv12 => 1,
        PlanarPixelFormat::P010 => 2,
    };
    Ok(
        PlaneLayout {
            chroma_width,
            chroma_height,
            luma_bytes_per_row: frame.width as u64 * sample,
            chroma_bytes_per_row: chroma_width as u64 * 2 * sample,
        },
    )
}

/// The video frame that is on the device.
#[derive(Debug, Clone, Copy)]
pub struct UploadedVideoFrame {
    /// The frame is one texture of converted colours, not planes.
    pub is_rgb: bool,
    pub width: u32,
    pub height: u32,
    pub uniforms: VideoUniforms,
    pub source_color: Option<SourceColorState>,
    /// Names the upload: presenting the frame again does not change it.
    pub frame_token: u64,
}

impl UploadedVideoFrame {
    /// Whether uniforms show the frame on an output. A frame whose source is
    /// not known keeps the uniforms that it came with.
    pub open spec fn shows<G: Fn(ColorPrimaries, ColorPrimaries) -> GamutRows>(
        self,
        output: OutputDescription,
        gamut: G,
        uniforms: VideoUniforms,
    ) -> bool {
        match self.source_color {
            None => uniforms == self.uniforms,
            Some(source) => {
                let base = with_packed_alpha(0, is_packed_alpha(self.uniforms.input_mode));
                &&& converts(uniforms, source, output.target, output.extended_linear, gamut)
                &&& uniforms.is_p010 == flag(self.uniforms.is_p010 != 0)
                &&& uniforms.scene_linear == 0
                &&& uniforms.input_mode == if self.is_rgb {
                    with_base_mode(base, 1)
                } else {
                    base
                }
            },
        }
    }

    /// The uniforms that show the frame on an output.
    pub fn uniforms_for_output<
        E: Fn(FloatBits, FloatBits, FloatBits) -> bool,
        G: Fn(ColorPrimaries, ColorPrimaries) -> GamutRows,
    >(&self, output: OutputDescription, exceeds: &E, gamut: &G) -> (uniforms: VideoUniforms)
        requires
            is_exceeds(*exceeds),
            is_gamut(*gamut),
        ensures
            self.shows(output, *gamut, uniforms),
    {
        let source: SourceColorState = match self.source_color {
            Some(source) => source,
            None => {
                return self.uniforms;
            },
        };
        let uniforms: VideoUniforms = uniforms_for(
            source,
            output.target,
            self.uniforms.is_p010 != 0,
            output.extended_linear,
            exceeds,
            gamut,
        ).packed_alpha_right(self.uniforms.has_packed_alpha_right());
        if self.is_rgb {
            uniforms.rgb_texture_input()
        } else {
            uniforms
        }
    }
}

/// The number of the upload after `serial`.
pub open spec fn next_serial(serial: u64) -> u64 {
    if serial < u64::MAX {
        (serial + 1) as u64
    } else {
        serial
    }
}

/// Planes that are to be copied to textures of the device.
#[derive(Debug)]
pub struct PlanarUpload {
    pub frame: PlanarFrame,
    pub layout: PlaneLayout,
    pub path: PlanarUploadPath,
    pub frame_token: u64,
}

/// Why a frame was not uploaded.
#[derive(Debug)]
pub enum UploadError<F> {
    /// Ten-bit planes could not be reduced to eight bits.
    Conversion { failure: F },
    Planes { error: PlaneError },
}

/// What a decoder has produced.
#[derive(Debug, Clone, Copy, PartialEq, Eq, Structural)]
pub struct DecodedFrame {
    pub backend: DecoderBackend,
    /// The frame is a hardware buffer of Android's decoder.
    pub is_mediacodec: bool,
    /// The frame is a native buffer of OpenHarmony's decoder.
    pub is_ohos_avcodec_surface: bool,
    /// The frame can be read as planes.
    pub has_planes: bool,
    pub has_hw_frames_context: bool,
}

/// The way of a frame to the device.
#[derive(Debug, Clone, Copy, PartialEq, Eq, Structural)]
pub enum FrameRoute {
    /// The device shares the decoder's buffer.
    SharedBuffer,
    /// The planes are copied.
    Planes,
    /// A hardware frame whose buffer cannot be shared.
    HardwareWithoutInterop,
    /// A frame of another layout.
    NotPlanar,
}

pub open spec fn route(platform: Platform, frame: DecodedFrame) -> FrameRoute {
    if platform == Platform::Android && frame.backend == DecoderBackend::MediaCodec
        && frame.is_mediacodec {
        FrameRoute::SharedBuffer
    } else if platform == Platform::Ohos && frame.backend == DecoderBackend::AvCodec
        && frame.is_ohos_avcodec_surface {
        FrameRoute::SharedBuffer
    } else if frame.has_planes {
        FrameRoute::Planes
    } else if frame.has_hw_frames_context {
        FrameRoute::HardwareWithoutInterop
    } else {
        FrameRoute::NotPlanar
    }
}

/// The counters once a frame's way was chosen.
pub open spec fn routed_stats(
    stats: WgpuRendererStats,
    frame: DecodedFrame,
    route: FrameRoute,
) -> WgpuRendererStats {
    match route {
        FrameRoute::Planes => if frame.backend == DecoderBackend::Software {
            WgpuRendererStats {
                software_video_frames: (stats.software_video_frames + 1) as u64,
                ..stats
            }
        } else {
            WgpuRendererStats {
                hardware_video_frames: (stats.hardware_video_frames + 1) as u64,
                cpu_video_frame_fallbacks: (stats.cpu_video_frame_fallbacks + 1) as u64,
                ..stats
            }
        },
        FrameRoute::HardwareWithoutInterop => WgpuRendererStats {
            hardware_video_frames: (stats.hardware_video_frames + 1) as u64,
            ..stats
        },
        _ => stats,
    }
}

/// The part of a hardware buffer that is visible.
#[derive(Debug, Clone, Copy, PartialEq, Eq, Structural)]
pub struct BufferCrop {
    pub left: u32,
    pub top: u32,
    pub right: u32,
    pub bottom: u32,
}

impl BufferCrop {
    /// The visible extent; an inverted crop shows nothing.
    pub fn visible_extent(&self) -> (extent: (u32, u32))
        ensures
            extent.0 == if self.right >= self.left {
                self.right - self.left
            } else {
                0
            },
            extent.1 == if self.bottom >= self.top {
                self.bottom - self.top
            } else {
                0
            },
    {
        (self.right.saturating_sub(self.left), self.bottom.saturating_sub(self.top))
    }
}

/// Why a native buffer cannot be imported.
#[derive(Debug, Clone, Copy, PartialEq, Eq, Structural)]
pub enum NativeBufferError {
    InvalidWidth { width: i32 },
    InvalidHeight { height: i32 },
}

/// The visible extent of a frame in a native buffer, whose size must not be
/// negative.
pub fn native_buffer_extent(
    buffer_width: i32,
    buffer_height: i32,
    frame_width: u32,
    frame_height: u32,
) -> (extent: Result<(u32, u32), NativeBufferError>)
    ensures
        match extent {
            Err(NativeBufferError::InvalidWidth { width }) => buffer_width < 0 && width
                == buffer_width,
            Err(NativeBufferError::InvalidHeight { height }) => buffer_width >= 0 && buffer_height
                < 0 && height == buffer_height,
            Ok((width, height)) => {
                &&& buffer_width >= 0 && buffer_height >= 0
                &&& width == if frame_width <= buffer_width {
                    frame_width as int
                } else {
                    buffer_width as int
                }
                &&& height == if frame_height <= buffer_height {
                    frame_height as int
                } else {
                    buffer_height as int
                }
            },
        },
{
    if buffer_width < 0 {
        return Err(NativeBufferError::InvalidWidth { width: buffer_width });
    }
    if buffer_height < 0 {
        return Err(NativeBufferError::InvalidHeight { height: buffer_height });
    }
    let width: u32 = if frame_width <= buffer_width as u32 {
        frame_width
    } else {
        buffer_width as u32
    };
    let height: u32 = if frame_height <= buffer_height as u32 {
        frame_height
    } else {
        buffer_height as u32
    };
    Ok((width, height))
}

/// Formats of the texture that a shared buffer is converted to.
#[derive(Debug, Clone, Copy, PartialEq, Eq, Structural)]
pub enum AndroidAhbIntermediateFormat {
    Rgba16Float,
    Rgb10a2Unorm,
}

/// Bright and wide-gamut sources keep values outside the normalised range, so
/// they get floating point; ordinary ones get ten bits, which is half the size.
pub fn android_ahb_intermediate_format<E: Fn(FloatBits, FloatBits, FloatBits) -> bool>(
    source: SourceColorState,
    supports_rgb10a2: bool,
    exceeds: &E,
) -> (format: AndroidAhbIntermediateFormat)
    requires
        is_exceeds(*exceeds),
    ensures
        format == if source.hdr(*exceeds) || source.primaries == ColorPrimaries::DisplayP3
            || source.primaries == ColorPrimaries::Bt2020 || !supports_rgb10a2 {
            AndroidAhbIntermediateFormat::Rgba16Float
        } else {
            AndroidAhbIntermediateFormat::Rgb10a2Unorm
        },
{
    if source.is_hdr(exceeds) || source.primaries == ColorPrimaries::DisplayP3 || source.primaries
        == ColorPrimaries::Bt2020 || !supports_rgb10a2 {
        AndroidAhbIntermediateFormat::Rgba16Float
    } else {
        AndroidAhbIntermediateFormat::Rgb10a2Unorm
    }
}

/// How a shared buffer is read.
#[derive(Debug, Clone, Copy, PartialEq, Eq, Structural)]
pub enum SharedBufferRoute {
    NativeBuffer,
    NativeImage,
}

/// What came of converting a shared buffer to a texture of colours.
#[derive(Debug, Clone, Copy, PartialEq, Eq, Structural)]
pub enum ConversionOutcome {
    Converted { width: u32, height: u32 },
    /// An image has no picture yet.
    NoPicture,
    /// Too many conversions have not finished.
    Backpressure,
    Failed,
}

/// What an import has changed.
#[derive(Debug, Clone, Copy, PartialEq, Eq, Structural)]
pub enum SharedBufferImport {
    /// The buffer's picture is the current frame.
    Imported { frame_token: u64 },
    /// The frame before stays.
    Kept,
}

/// Why a shared buffer cannot be imported.
#[derive(Debug, Clone, Copy, PartialEq, Eq, Structural)]
pub enum SharedBufferError {
    /// Nothing can read buffers on Android.
    NativeBufferInteropMissing,
    /// Nothing can read buffers or images on OpenHarmony.
    NativeImageInteropMissing,
    Backpressure,
    ConversionFailed,
    ZeroSize,
}

impl SharedBufferError {
    /// What the error means for the device. Backpressure passes by itself, so it
    /// is no failure of the renderer.
    pub open spec fn class(self) -> OperationResult {
        if self == SharedBufferError::Backpressure {
            OperationResult::OtherError
        } else {
            OperationResult::RendererError
        }
    }

    /// What the error means for the device.
    pub fn error_class(self) -> (class: OperationResult)
        ensures
            class == self.class(),
    {
        if self == SharedBufferError::Backpressure {
            OperationResult::OtherError
        } else {
            OperationResult::RendererError
        }
    }
}

impl WgpuRenderer {
    /// How shared buffers are read. The device reads the buffers themselves
    /// where it can; otherwise images over them may be read on OpenHarmony.
    pub open spec fn shared_buffer_way(self, native_image: bool) -> Result<
        SharedBufferRoute,
        SharedBufferError,
    > {
        if self.interop {
            Ok(SharedBufferRoute::NativeBuffer)
        } else if self.platform != Platform::Ohos {
            Err(SharedBufferError::NativeBufferInteropMissing)
        } else if native_image {
            Ok(SharedBufferRoute::NativeImage)
        } else {
            Err(SharedBufferError::NativeImageInteropMissing)
        }
    }

    /// Chooses how a shared buffer is read; images over buffers may be there to
    /// be read.
    pub fn shared_buffer_route(&self, native_image: bool) -> (route: Result<
        SharedBufferRoute,
        SharedBufferError,
    >)
        requires
            self.platform == Platform::Android || self.platform == Platform::Ohos,
        ensures
            route == self.shared_buffer_way(native_image),
    {
        if self.interop {
            return Ok(SharedBufferRoute::NativeBuffer);
        }
        if self.platform != Platform::Ohos {
            return Err(SharedBufferError::NativeBufferInteropMissing);
        }
        if native_image {
            Ok(SharedBufferRoute::NativeImage)
        } else {
            Err(SharedBufferError::NativeImageInteropMissing)
        }
    }

    /// Whether decoders may write to shared buffers: on Android where the device
    /// reads them, and on OpenHarmony where there also is a surface to write to,
    /// or where images can be read.
    pub open spec fn shares_with_decoders(
        self,
        native_buffer_surface: bool,
        native_image: bool,
    ) -> bool {
        match self.platform {
            Platform::Android => self.interop,
            Platform::Ohos => (self.interop && native_buffer_surface) || native_image,
            _ => false,
        }
    }

    /// Whether decoders may write to shared buffers.
    pub fn supports_mediacodec_surface_frames(
        &self,
        native_buffer_surface: bool,
        native_image: bool,
    ) -> (supported: bool)
        ensures
            supported == self.shares_with_decoders(native_buffer_surface, native_image),
    {
        match self.platform {
            Platform::Android => self.interop,
            Platform::Ohos => (self.interop && native_buffer_surface) || native_image,
            _ => false,
        }
    }

    /// The renderer once a shared buffer's picture became the current frame.
    pub open spec fn with_shared_picture(self, video: UploadedVideoFrame) -> Self {
        WgpuRenderer {
            stats: WgpuRendererStats {
                hardware_video_frames: (self.stats.hardware_video_frames + 1) as u64,
                zero_copy_video_frames: (self.stats.zero_copy_video_frames + 1) as u64,
                shared_handle_video_frames: (self.stats.shared_handle_video_frames + 1) as u64,
                ..self.stats
            },
            ..self.with_video(video)
        }
    }

    /// The renderer once a frame of a source was counted by its range.
    pub open spec fn with_source_counted<E: Fn(FloatBits, FloatBits, FloatBits) -> bool>(
        self,
        source: SourceColorState,
        exceeds: E,
    ) -> Self {
        let output = self.output();
        let hdr = source.hdr(exceeds);
        let mapped = hdr && !output.extended_linear && tone_mapping_required(
            source,
            output.target,
            exceeds,
        );
        WgpuRenderer {
            stats: WgpuRendererStats {
                hdr_source_frames: (self.stats.hdr_source_frames + flag(hdr)) as u64,
                sdr_tonemap_frames: (self.stats.sdr_tonemap_frames + flag(mapped)) as u64,
                ..self.stats
            },
            ..self
        }
    }

    /// The renderer once a shared buffer was converted: its picture is the
    /// current frame, with the uniforms of its source.
    pub open spec fn shared_picture_shown<
        E: Fn(FloatBits, FloatBits, FloatBits) -> bool,
        G: Fn(ColorPrimaries, ColorPrimaries) -> GamutRows,
    >(
        self,
        width: u32,
        height: u32,
        source: SourceColorState,
        exceeds: E,
        gamut: G,
        after: Self,
    ) -> bool {
        let output = self.output();
        let video = after.current_video->0;
        &&& after == self.with_source_counted(source, exceeds).with_shared_picture(video)
        &&& video.is_rgb
        &&& video.width == width
        &&& video.height == height
        &&& video.source_color == Some(source)
        &&& video.frame_token == next_serial(self.upload_serial)
        &&& converts(video.uniforms, source, output.target, output.extended_linear, gamut)
        &&& video.uniforms.is_p010 == 0
        &&& video.uniforms.scene_linear == 0
        &&& video.uniforms.input_mode == with_base_mode(
            with_packed_alpha(0, self.video_has_alpha),
            1,
        )
    }

    fn show_shared_picture(
        &mut self,
        width: u32,
        height: u32,
        uniforms: VideoUniforms,
        source_color: Option<SourceColorState>,
    ) -> (frame_token: u64)
        requires
            old(self).stats.has_room_for_shared_buffer(),
        ensures
            frame_token == next_serial(old(self).upload_serial),
            *final(self) == old(self).with_shared_picture(
                UploadedVideoFrame {
                    is_rgb: true,
                    width,
                    height,
                    uniforms: VideoUniforms {
                        input_mode: with_base_mode(uniforms.input_mode, 1),
                        ..uniforms
                    },
                    source_color,
                    frame_token,
                },
            ),
    {
        let frame_token: u64 = self.next_upload_serial();
        self.current_video =
        Some(
            UploadedVideoFrame {
                is_rgb: true,
                width,
                height,
                uniforms: uniforms.rgb_texture_input(),
                source_color,
                frame_token,
            },
        );
        self.current_video_visible = true;
        self.stats.hardware_video_frames = self.stats.hardware_video_frames + 1;
        self.stats.zero_copy_video_frames = self.stats.zero_copy_video_frames + 1;
        self.stats.shared_handle_video_frames = self.stats.shared_handle_video_frames + 1;
        frame_token
    }

    /// Takes in what came of converting a shared buffer. A buffer that was
    /// converted becomes the current frame; one without a picture leaves the
    /// frame before, and so does one that could not be converted.
    pub fn import_shared_buffer<
        E: Fn(FloatBits, FloatBits, FloatBits) -> bool,
        G: Fn(ColorPrimaries, ColorPrimaries) -> GamutRows,
    >(
        &mut self,
        route: SharedBufferRoute,
        outcome: ConversionOutcome,
        source: SourceColorState,
        exceeds: &E,
        gamut: &G,
    ) -> (imported: Result<SharedBufferImport, SharedBufferError>)
        requires
            is_exceeds(*exceeds),
            is_gamut(*gamut),
            old(self).stats.has_room(),
        ensures
            match outcome {
                ConversionOutcome::NoPicture => {
                    &&& imported == Ok::<SharedBufferImport, SharedBufferError>(
                        SharedBufferImport::Kept,
                    )
                    &&& *final(self) == *old(self)
                },
                ConversionOutcome::Backpressure => {
                    &&& imported == Err::<SharedBufferImport, SharedBufferError>(
                        SharedBufferError::Backpressure,
                    )
                    &&& *final(self) == *old(self)
                },
                ConversionOutcome::Failed => {
                    &&& imported == Err::<SharedBufferImport, SharedBufferError>(
                        SharedBufferError::ConversionFailed,
                    )
                    &&& *final(self) == *old(self)
                },
                ConversionOutcome::Converted { width, height } => if route
                    == SharedBufferRoute::NativeBuffer && (width == 0 || height == 0) {
                    &&& imported == Err::<SharedBufferImport, SharedBufferError>(
                        SharedBufferError::ZeroSize,
                    )
                    &&& *final(self) == old(self).with_source_counted(source, *exceeds)
                } else {
                    &&& imported == Ok::<SharedBufferImport, SharedBufferError>(
                        SharedBufferImport::Imported {
                            frame_token: next_serial(old(self).upload_serial),
                        },
                    )
                    &&& old(self).shared_picture_shown(
                        width,
                        height,
                        source,
                        *exceeds,
                        *gamut,
                        *final(self),
                    )
                },
            },
    {
        let (width, height) = match outcome {
            ConversionOutcome::Converted { width, height } => (width, height),
            ConversionOutcome::NoPicture => {
                return Ok(SharedBufferImport::Kept);
            },
            ConversionOutcome::Backpressure => {
                return Err(SharedBufferError::Backpressure);
            },
            ConversionOutcome::Failed => {
                return Err(SharedBufferError::ConversionFailed);
            },
        };
        let uniforms: VideoUniforms = self.video_uniforms_for_frame(source, false, exceeds, gamut);
        if route == SharedBufferRoute::NativeBuffer {
            match self.upload_converted_rgb_texture(width, height, uniforms, Some(source)) {
                Ok(frame_token) => Ok(SharedBufferImport::Imported { frame_token }),
                Err(_) => Err(SharedBufferError::ZeroSize),
            }
        } else {
            let frame_token: u64 = self.show_shared_picture(width, height, uniforms, Some(source));
            Ok(SharedBufferImport::Imported { frame_token })
        }
    }

    /// The output that frames are converted for.
    pub open spec fn output(self) -> OutputDescription {
        match self.surface {
            Some(attached) => attached.output,
            None => OutputDescription::of_sdr(),
        }
    }

    /// The renderer once a frame was uploaded.
    pub open spec fn with_video(self, video: UploadedVideoFrame) -> Self {
        WgpuRenderer {
            current_video: Some(video),
            current_video_visible: true,
            upload_serial: video.frame_token,
            ..self
        }
    }

    fn next_upload_serial(&mut self) -> (serial: u64)
        ensures
            serial == next_serial(old(self).upload_serial),
            *final(self) == (WgpuRenderer { upload_serial: serial, ..*old(self) }),
    {
        self.upload_serial = self.upload_serial.saturating_add(1);
        self.upload_serial
    }

    /// Uploads prepared planes: they become the current frame, under a new
    /// number. Planes of the wrong size change nothing.
    pub fn upload_prepared(
        &mut self,
        prepared: PreparedPlanarUpload,
        source_color: Option<SourceColorState>,
    ) -> (upload: Result<PlanarUpload, PlaneError>)
        ensures
            match planes_check(prepared.frame) {
                Err(error) => upload == Err::<PlanarUpload, PlaneError>(error) && *final(self)
                    == *old(self),
                Ok(layout) => {
                    let frame_token = next_serial(old(self).upload_serial);
                    &&& upload == Ok::<PlanarUpload, PlaneError>(
                        PlanarUpload {
                            frame: prepared.frame,
                            layout,
                            path: prepared.path,
                            frame_token,
                        },
                    )
                    &&& *final(self) == old(self).with_video(
                        UploadedVideoFrame {
                            is_rgb: false,
                            width: prepared.frame.width,
                            height: prepared.frame.height,
                            uniforms: prepared.uniforms,
                            source_color,
                            frame_token,
                        },
                    )
                },
            },
    {
        let layout: PlaneLayout = match check_planes(&prepared.frame) {
            Ok(layout) => layout,
            Err(error) => {
                return Err(error);
            },
        };
        let frame_token: u64 = self.next_upload_serial();
        self.current_video =
        Some(
            UploadedVideoFrame {
                is_rgb: false,
                width: prepared.frame.width,
                height: prepared.frame.height,
                uniforms: prepared.uniforms,
                source_color,
                frame_token,
            },
        );
        self.current_video_visible = true;
        Ok(PlanarUpload { frame: prepared.frame, layout, path: prepared.path, frame_token })
    }

    /// Uploads tightly packed eight-bit planes as the current frame.
    pub fn upload_nv12(
        &mut self,
        width: u32,
        height: u32,
        luma: Vec<u8>,
        chroma: Vec<u8>,
        uniforms: VideoUniforms,
    ) -> (upload: Result<PlanarUpload, PlaneError>)
        ensures
            ({
                let frame = PlanarFrame {
                    format: PlanarPixelFormat::Nv12,
                    width,
                    height,
                    luma,
                    chroma,
                };
                match planes_check(frame) {
                    Err(error) => upload == Err::<PlanarUpload, PlaneError>(error) && *final(self)
                        == *old(self),
                    Ok(layout) => {
                        let frame_token = next_serial(old(self).upload_serial);
                        &&& upload == Ok::<PlanarUpload, PlaneError>(
                            PlanarUpload {
                                frame,
                                layout,
                                path: PlanarUploadPath::Native,
                                frame_token,
                            },
                        )
                        &&& *final(self) == old(self).with_video(
                            UploadedVideoFrame {
                                is_rgb: false,
                                width,
                                height,
                                uniforms: for_format(uniforms, PlanarPixelFormat::Nv12),
                                source_color: None,
                                frame_token,
                            },
                        )
                    },
                }
            }),
    {
        let frame: PlanarFrame = PlanarFrame {
            format: PlanarPixelFormat::Nv12,
            width,
            height,
            luma,
            chroma,
        };
        self.upload_prepared(
            PreparedPlanarUpload {
                frame,
                uniforms: VideoUniforms { is_p010: 0, ..uniforms },
                path: PlanarUploadPath::Native,
            },
            None,
        )
    }

    /// Uploads planes as the current frame, reduced to eight bits where the
    /// device needs that.
    pub fn upload_planar<F, D: FnOnce(PlanarFrame) -> Result<PlanarFrame, F>>(
        &mut self,
        frame: PlanarFrame,
        uniforms: VideoUniforms,
        source_color: Option<SourceColorState>,
        downconvert: D,
    ) -> (upload: Result<PlanarUpload, UploadError<F>>)
        requires
            needs_conversion(frame, old(self).supports_16bit_norm) ==> downconvert.requires(
                (frame,),
            ),
        ensures
            exists|prepared: Result<PreparedPlanarUpload, F>|
                #![trigger prepares(
                    frame,
                    uniforms,
                    old(self).supports_16bit_norm,
                    downconvert,
                    prepared,
                )]
                prepares(frame, uniforms, old(self).supports_16bit_norm, downconvert, prepared)
                    && match prepared {
                    Err(failure) => upload == Err::<PlanarUpload, UploadError<F>>(
                        UploadError::Conversion { failure },
                    ) && *final(self) == *old(self),
                    Ok(prepared) => match planes_check(prepared.frame) {
                        Err(error) => upload == Err::<PlanarUpload, UploadError<F>>(
                            UploadError::Planes { error },
                        ) && *final(self) == *old(self),
                        Ok(layout) => {
                            let frame_token = next_serial(old(self).upload_serial);
                            &&& upload == Ok::<PlanarUpload, UploadError<F>>(
                                PlanarUpload {
                                    frame: prepared.frame,
                                    layout,
                                    path: prepared.path,
                                    frame_token,
                                },
                            )
                            &&& *final(self) == old(self).with_video(
                                UploadedVideoFrame {
                                    is_rgb: false,
                                    width: prepared.frame.width,
                                    height: prepared.frame.height,
                                    uniforms: prepared.uniforms,
                                    source_color,
                                    frame_token,
                                },
                            )
                        },
                    },
                },
    {
        let supported: bool = self.supports_16bit_norm;
        let prepared: Result<PreparedPlanarUpload, F> = prepare_planar_upload(
            frame,
            uniforms,
            supported,
            downconvert,
        );
        assert(prepares(frame, uniforms, supported, downconvert, prepared));
        match prepared {
            Err(failure) => Err(UploadError::Conversion { failure }),
            Ok(prepared) => match self.upload_prepared(prepared, source_color) {
                Ok(upload) => Ok(upload),
                Err(error) => Err(UploadError::Planes { error }),
            },
        }
    }

    /// A texture of converted colours becomes the current frame.
    pub fn upload_converted_rgb_texture(
        &mut self,
        width: u32,
        height: u32,
        uniforms: VideoUniforms,
        source_color: Option<SourceColorState>,
    ) -> (frame_token: Result<u64, PlaneError>)
        requires
            old(self).stats.has_room_for_shared_buffer(),
        ensures
            if width == 0 || height == 0 {
                frame_token == Err::<u64, PlaneError>(PlaneError::ZeroSize) && *final(self)
                    == *old(self)
            } else {
                let token = next_serial(old(self).upload_serial);
                &&& frame_token == Ok::<u64, PlaneError>(token)
                &&& *final(self) == old(self).with_shared_picture(
                    UploadedVideoFrame {
                        is_rgb: true,
                        width,
                        height,
                        uniforms: VideoUniforms {
                            input_mode: with_base_mode(uniforms.input_mode, 1),
                            ..uniforms
                        },
                        source_color,
                        frame_token: token,
                    },
                )
            },
    {
        if width == 0 || height == 0 {
            return Err(PlaneError::ZeroSize);
        }
        Ok(self.show_shared_picture(width, height, uniforms, source_color))
    }

    /// The extent that a shared buffer is converted to: within the surface,
    /// and never larger than the frame.
    pub fn conversion_extent(&self, source_width: u32, source_height: u32) -> (extent: (u32, u32))
        ensures
            match self.surface {
                None => extent == (source_width, source_height),
                Some(attached) => {
                    let fit = fitted(
                        source_width,
                        source_height,
                        attached.config.width,
                        attached.config.height,
                    );
                    extent.0 == fit.0 && extent.1 == fit.1
                },
            },
    {
        match self.surface {
            None => (source_width, source_height),
            Some(attached) => fit_extent_without_upscale(
                source_width,
                source_height,
                attached.config.width,
                attached.config.height,
            ),
        }
    }

    /// Chooses the way of a decoded frame and counts it.
    pub fn route_player_frame(&mut self, frame: DecodedFrame) -> (chosen: FrameRoute)
        requires
            old(self).stats.has_room(),
        ensures
            chosen == route(old(self).platform, frame),
            *final(self) == (WgpuRenderer {
                stats: routed_stats(old(self).stats, frame, chosen),
                ..*old(self)
            }),
    {
        if self.platform == Platform::Android && frame.backend == DecoderBackend::MediaCodec
            && frame.is_mediacodec {
            return FrameRoute::SharedBuffer;
        }
        if self.platform == Platform::Ohos && frame.backend == DecoderBackend::AvCodec
            && frame.is_ohos_avcodec_surface {
            return FrameRoute::SharedBuffer;
        }
        if frame.has_planes {
            if frame.backend == DecoderBackend::Software {
                self.stats.software_video_frames = self.stats.software_video_frames + 1;
            } else {
                self.stats.hardware_video_frames = self.stats.hardware_video_frames + 1;
                self.stats.cpu_video_frame_fallbacks = self.stats.cpu_video_frame_fallbacks + 1;
            }
            FrameRoute::Planes
        } else if frame.has_hw_frames_context {
            self.stats.hardware_video_frames = self.stats.hardware_video_frames + 1;
            FrameRoute::HardwareWithoutInterop
        } else {
            FrameRoute::NotPlanar
        }
    }

    /// The uniforms of a decoded frame. HDR frames are counted, and those that
    /// are tone mapped to standard dynamic range once more.
    pub fn video_uniforms_for_frame<
        E: Fn(FloatBits, FloatBits, FloatBits) -> bool,
        G: Fn(ColorPrimaries, ColorPrimaries) -> GamutRows,
    >(&mut self, source: SourceColorState, is_p010: bool, exceeds: &E, gamut: &G) -> (uniforms:
        VideoUniforms)
        requires
            is_exceeds(*exceeds),
            is_gamut(*gamut),
            old(self).stats.has_room(),
        ensures
            ({
                let output = old(self).output();
                &&& converts(uniforms, source, output.target, output.extended_linear, *gamut)
                &&& uniforms.is_p010 == flag(is_p010)
                &&& uniforms.scene_linear == 0
                &&& uniforms.input_mode == with_packed_alpha(0, old(self).video_has_alpha)
                &&& *final(self) == old(self).with_source_counted(source, *exceeds)
            }),
    {
        let output: OutputDescription = match self.surface {
            Some(attached) => attached.output,
            None => OutputDescription::sdr(),
        };
        if source.is_hdr(exceeds) {
            self.stats.hdr_source_frames = self.stats.hdr_source_frames + 1;
            if !output.extended_linear && requires_tone_mapping(source, output.target, exceeds) {
                self.stats.sdr_tonemap_frames = self.stats.sdr_tonemap_frames + 1;
            }
        }
        uniforms_for(
            source,
            output.target,
            is_p010,
            output.extended_linear,
            exceeds,
            gamut,
        ).packed_alpha_right(self.video_has_alpha)
    }
}

/// Every upload gets a number that no earlier one had, as long as numbers last.
pub proof fn lemma_upload_numbers_grow(serial: u64)
    requires
        serial < u64::MAX,
    ensures
        next_serial(serial) > serial,
        next_serial(serial) >= 1,
{
}

/// Shared buffers that cannot keep up do not cost the device: as long as it is
/// healthy, no policy answers backpressure with another one. Every other error
/// of an import may be answered so.
pub proof fn lemma_backpressure_keeps_the_device(
    error: SharedBufferError,
    policy: AndroidWgpuRecoveryPolicy,
)
    ensures
        ({
            let judged = verdict(
                OperationEvent::Returned { result: error.class(), healthy_after: true },
                policy,
            );
            if error == SharedBufferError::Backpressure {
                judged == OperationVerdict::Final
            } else {
                judged == OperationVerdict::Recoverable <==> policy
                    == AndroidWgpuRecoveryPolicy::AnyRendererFailure
            }
        }),
{
}

/// What decoders may write to can be read: no frame of theirs is refused for want
/// of something to read it.
pub proof fn lemma_shared_frames_can_be_read(
    renderer: WgpuRenderer,
    native_buffer_surface: bool,
    native_image: bool,
)
    requires
        renderer.shares_with_decoders(native_buffer_surface, native_image),
    ensures
        renderer.shared_buffer_way(native_image) is Ok,
{
}

/// A frame that the device can show natively is never converted, and an
/// eight-bit frame never is.
pub proof fn lemma_conversion_is_the_last_resort(frame: PlanarFrame, supports_16bit_norm: bool)
    ensures
        supports_16bit_norm ==> !needs_conversion(frame, supports_16bit_norm),
        frame.format == PlanarPixelFormat::Nv12 ==> !needs_conversion(frame, supports_16bit_norm),
{
}

} // verus!
